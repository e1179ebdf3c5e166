//! Views of the task queue contract: the tasks it lists, the payment a new
//! task needs, and the report printed about the queue.
use vstd::prelude::*;
use vstd::string::StringExecFns;

use crate::bindings::fmt::push_decimal;
use crate::bouncer::json::{json_view, JsonValue, JsonView};
use crate::text::{all_digits, decimal, digits_value, is_digit, str_chars, chars_eq};

verus! {

#[verifier::external_type_specification]
#[verifier::external_body]
pub struct ExJsonValue(serde_json::Value);

/// The name of what `serde_json::to_string_pretty` writes for the JSON
/// value `v`: indented by two spaces, an object's members sorted by name
/// (of members with the same name, the last one), strings escaped, numbers
/// as their text (a number whose text is not a JSON number as `null`).
pub uninterp spec fn pretty_json(v: JsonView) -> Seq<char>;

/// The `serde_json` form of a library JSON value, member for member. It
/// only converts, so that the value can be handed to `serde_json`.
#[verifier::external_body]
fn serde_value(v: &JsonValue) -> serde_json::Value {
    match v {
        JsonValue::Null => serde_json::Value::Null,
        JsonValue::Bool(b) => serde_json::Value::Bool(*b),
        JsonValue::Number(n) => n.parse().map(serde_json::Value::Number).unwrap_or(serde_json::Value::Null),
        JsonValue::String(t) => serde_json::Value::String(t.clone()),
        JsonValue::Array(items) => serde_json::Value::Array(items.iter().map(serde_value).collect()),
        JsonValue::Object(members) => serde_json::Value::Object(
            members.iter().map(|(k, x)| (k.clone(), serde_value(x))).collect(),
        ),
    }
}

/// `serde_json::to_string_pretty` on a JSON value, its error given as the
/// error's display text. It never fails on a `Value`: the serializer writes
/// into a `Vec`, whose writes do not fail, and a `Value`'s `Serialize` only
/// writes, with string keys in its maps. The text is named [`pretty_json`].
#[verifier::external_body]
fn json_to_string_pretty(v: &JsonValue) -> (r: Result<String, String>)
    ensures
        r is Ok,
        r matches Ok(s) ==> s@ == pretty_json(json_view(*v)),
{
    serde_json::to_string_pretty(&serde_value(v)).map_err(|e| e.to_string())
}

/// A task that still waits for votes.
#[derive(Debug)]
pub struct OpenTaskOverview {
    pub id: u64,
    /// When the task expires, in nanoseconds since the UNIX epoch.
    pub expires: u64,
    pub payload: JsonValue,
}

/// A task that completed.
#[derive(Debug)]
pub struct CompletedTaskOverview {
    pub id: u64,
    /// When the task completed.
    pub completed: u64,
    pub result: JsonValue,
}

/// A task of the queue, open or completed.
#[derive(Debug)]
pub enum TaskView {
    Open(OpenTaskOverview),
    Completed(CompletedTaskOverview),
}

/// The id of a task.
pub open spec fn task_id(t: TaskView) -> u64 {
    match t {
        TaskView::Open(o) => o.id,
        TaskView::Completed(c) => c.id,
    }
}

/// The payload of an open task, or the result of a completed one.
pub open spec fn task_data(t: TaskView) -> JsonValue {
    match t {
        TaskView::Open(o) => o.payload,
        TaskView::Completed(c) => c.result,
    }
}

/// The message of a payload that could not be rendered starts with this.
pub open spec fn serialize_failure_prefix() -> Seq<char> {
    "Failed to serialize payload: "@
}

impl TaskView {
    /// The task's id.
    pub fn id(&self) -> (r: u64)
        ensures
            r == task_id(*self),
    {
        match self {
            TaskView::Open(task) => task.id,
            TaskView::Completed(task) => task.id,
        }
    }

    /// The payload of an open task, or the result of a completed one, as
    /// pretty-printed JSON; rendering a JSON value always succeeds.
    pub fn data_json_string(&self) -> (r: Result<String, String>)
        ensures
            r matches Ok(s) && s@ == pretty_json(json_view(task_data(*self))),
            r matches Err(m) ==> serialize_failure_prefix().is_prefix_of(m@),
    {
        let v = match self {
            TaskView::Open(task) => &task.payload,
            TaskView::Completed(task) => &task.result,
        };
        match json_to_string_pretty(v) {
            Ok(s) => Ok(s),
            Err(e) => {
                let mut m = String::from_str("Failed to serialize payload: ");
                m.append(e.as_str());
                Err(m)
            },
        }
    }
}

/// The order in which tasks are listed.
#[derive(Clone, Copy, Debug, PartialEq, Eq, Structural)]
pub enum Order {
    Ascending,
    Descending,
}

/// `a` may stand before `b` in `order`.
pub open spec fn in_order(a: u64, b: u64, order: Order) -> bool {
    match order {
        Order::Ascending => a <= b,
        Order::Descending => a >= b,
    }
}

/// The tasks are sorted by id in `order`.
pub open spec fn sorted_by_id(s: Seq<TaskView>, order: Order) -> bool {
    forall|i: int, j: int| 0 <= i < j < s.len() ==> in_order(task_id(s[i]), task_id(s[j]), order)
}

/// The open tasks followed by the completed ones.
pub open spec fn all_tasks(open: Seq<OpenTaskOverview>, completed: Seq<CompletedTaskOverview>) -> Seq<
    TaskView,
> {
    open.map_values(|t: OpenTaskOverview| TaskView::Open(t)) + completed.map_values(
        |t: CompletedTaskOverview| TaskView::Completed(t),
    )
}

/// The tasks of `s` whose id is `x`, in their order in `s`.
pub open spec fn with_id(s: Seq<TaskView>, x: u64) -> Seq<TaskView> {
    s.filter(|t: TaskView| task_id(t) == x)
}

/// Inserting `t` where every task before may precede it and no task after
/// may: the tasks with its id get it last, the others are unchanged.
proof fn lemma_insert_with_id(before: Seq<TaskView>, p: int, t: TaskView, order: Order, x: u64)
    requires
        0 <= p <= before.len(),
        forall|i: int| p <= i < before.len() ==> !in_order(task_id(before[i]), task_id(t), order),
    ensures
        with_id(before.insert(p, t), x) == if task_id(t) == x {
            with_id(before, x).push(t)
        } else {
            with_id(before, x)
        },
{
    broadcast use vstd::seq_lib::group_filter_ensures;

    let pred = |u: TaskView| task_id(u) == x;
    let a = before.subrange(0, p);
    let b = before.subrange(p, before.len() as int);
    assert(before =~= a + b);
    assert(before.insert(p, t) =~= a.push(t) + b);
    Seq::filter_distributes_over_add(a, b, pred);
    Seq::filter_distributes_over_add(a.push(t), b, pred);
    a.lemma_filter_push(t, pred);
    if task_id(t) == x {
        assert forall|i: int| 0 <= i < b.len() implies !pred(b[i]) by {
            assert(b[i] == before[p + i]);
            assert(!in_order(task_id(before[p + i]), task_id(t), order));
        }
        b.lemma_all_neg_filter_empty(pred);
        assert(b.filter(pred) =~= Seq::<TaskView>::empty());
        assert(with_id(before.insert(p, t), x) =~= with_id(before, x).push(t));
    } else {
        assert(with_id(before.insert(p, t), x) =~= with_id(before, x));
    }
}

/// Whether `a` may stand before `b` in `order`.
fn precedes(a: u64, b: u64, order: Order) -> (r: bool)
    ensures
        r == in_order(a, b, order),
{
    match order {
        Order::Ascending => a <= b,
        Order::Descending => a >= b,
    }
}

/// Where `id` goes in a sorted list: after every task that may stand before it.
fn insertion_point(s: &Vec<TaskView>, id: u64, order: Order) -> (p: usize)
    requires
        sorted_by_id(s@, order),
    ensures
        p <= s@.len(),
        forall|i: int| 0 <= i < p ==> in_order(task_id(s@[i]), id, order),
        forall|i: int| p <= i < s@.len() ==> !in_order(task_id(s@[i]), id, order),
{
    let mut p = s.len();
    while p > 0 && !precedes(s[p - 1].id(), id, order)
        invariant
            p <= s@.len(),
            sorted_by_id(s@, order),
            forall|i: int| p <= i < s@.len() ==> !in_order(task_id(s@[i]), id, order),
        decreases p,
    {
        p = p - 1;
    }
    assert forall|i: int| 0 <= i < p implies in_order(task_id(s@[i]), id, order) by {
        if i < p - 1 {
            assert(in_order(task_id(s@[i]), task_id(s@[p - 1]), order));
        }
    }
    p
}

/// Lists the open and the completed tasks together, sorted by id in `order`.
pub fn merge_tasks(
    open: Vec<OpenTaskOverview>,
    completed: Vec<CompletedTaskOverview>,
    order: Order,
) -> (r: Vec<TaskView>)
    ensures
        r@.to_multiset() == all_tasks(open@, completed@).to_multiset(),
        sorted_by_id(r@, order),
        forall|x: u64| #[trigger] with_id(r@, x) == with_id(all_tasks(open@, completed@), x),
{
    let ghost input = all_tasks(open@, completed@);
    let ghost open0 = open@;
    let ghost completed0 = completed@;
    let mut open = open;
    let mut completed = completed;
    let mut sorted: Vec<TaskView> = Vec::new();
    let ghost mut k: int = 0;
    let ghost n_open = open0.len();
    proof {
        broadcast use vstd::seq_lib::group_to_multiset_ensures;

        assert(input.take(0) =~= Seq::<TaskView>::empty());
        assert(sorted@ =~= Seq::<TaskView>::empty());
        assert forall|x: u64| #[trigger] with_id(sorted@, x) == with_id(input.take(0), x) by {
            reveal(Seq::filter);
        }
    }
    while open.len() > 0 || completed.len() > 0
        invariant
            input == all_tasks(open0, completed0),
            0 <= k <= input.len(),
            k <= n_open ==> open@ == open0.subrange(k as int, n_open as int) && completed@
                == completed0,
            k > n_open ==> open@.len() == 0 && completed@ == completed0.subrange(
                k - n_open,
                completed0.len() as int,
            ),
            n_open == open0.len(),
            input.len() - k == open@.len() + completed@.len(),
            sorted@.to_multiset() == input.take(k as int).to_multiset(),
            sorted_by_id(sorted@, order),
            forall|x: u64| #[trigger] with_id(sorted@, x) == with_id(input.take(k as int), x),
        decreases open@.len() + completed@.len(),
    {
        let ghost opens = open0.map_values(|t: OpenTaskOverview| TaskView::Open(t));
        let ghost comps = completed0.map_values(|t: CompletedTaskOverview| TaskView::Completed(t));
        assert(input == opens + comps);
        let t = if open.len() > 0 {
            assert(k < n_open);
            assert(open@ == open0.subrange(k, n_open as int));
            assert(open@[0] == open0.subrange(k, n_open as int)[0]);
            assert(open@[0] == open0[k]);
            let o = open.remove(0);
            assert(input[k] == opens[k]);
            TaskView::Open(o)
        } else {
            assert(k >= n_open);
            assert(completed@[0] == completed0[k - n_open]);
            let c = completed.remove(0);
            assert(input[k] == comps[k - n_open]);
            TaskView::Completed(c)
        };
        assert(input[k] == t);
        let id = t.id();
        let p = insertion_point(&sorted, id, order);
        let ghost before = sorted@;
        let ghost tv = t;
        sorted.insert(p, t);
        proof {
            assert forall|x: u64| #[trigger] with_id(sorted@, x) == with_id(input.take(k + 1), x) by {
                lemma_insert_with_id(before, p as int, tv, order, x);
                input.take(k).lemma_filter_push(tv, |u: TaskView| task_id(u) == x);
                assert(input.take(k + 1) =~= input.take(k).push(tv));
            }
            vstd::seq_lib::to_multiset_insert(before, p as int, tv);
            assert(input.take(k + 1) =~= input.take(k).push(tv));
            vstd::seq_lib::to_multiset_build(input.take(k), tv);
            assert forall|a: int, b: int| 0 <= a < b < sorted@.len() implies in_order(
                task_id(sorted@[a]),
                task_id(sorted@[b]),
                order,
            ) by {
                if b < p {
                    assert(sorted@[a] == before[a] && sorted@[b] == before[b]);
                } else if b == p {
                    assert(sorted@[a] == before[a]);
                } else if a == p {
                    assert(sorted@[b] == before[b - 1]);
                    assert(!in_order(task_id(before[b - 1]), id, order));
                } else if a < p {
                    assert(sorted@[a] == before[a] && sorted@[b] == before[b - 1]);
                } else {
                    assert(sorted@[a] == before[a - 1] && sorted@[b] == before[b - 1]);
                }
            }
        }
        proof {
            k = k + 1;
        }
        assert(k <= n_open ==> open@ =~= open0.subrange(k as int, n_open as int));
        assert(k > n_open ==> completed@ =~= completed0.subrange(
            k - n_open,
            completed0.len() as int,
        ));
    }
    assert(input.take(k as int) =~= input);
    sorted
}

// ---------------------------------------------------------------------------
// Payment for a new task
// ---------------------------------------------------------------------------

/// An amount of one token.
#[derive(Clone, Debug, PartialEq, Eq)]
pub struct Coin {
    pub denom: String,
    pub amount: u128,
}

/// Who may create tasks, as the task queue contract is configured.
#[derive(Clone, Debug, PartialEq, Eq)]
pub enum Requestor {
    /// Only this address.
    Fixed(String),
    /// Anyone who sends this payment.
    OpenPayment(Coin),
}

/// The message when someone else than the fixed requestor adds a task.
pub open spec fn not_requestor_message() -> Seq<char> {
    "Only the requestor can pay for the task"@
}

/// The funds to send with a new task, added by `admin`: the payment of an
/// open queue; nothing for the fixed requestor; refused for anyone else.
pub fn task_payment(requestor: &Requestor, admin: &str) -> (r: Result<Vec<Coin>, String>)
    ensures
        requestor matches Requestor::OpenPayment(c) ==> (r matches Ok(v) && v@.len() == 1
            && v@[0].denom@ == c.denom@ && v@[0].amount == c.amount),
        requestor matches Requestor::Fixed(a) ==> (a@ == admin@ <==> r is Ok),
        requestor matches Requestor::Fixed(a) && a@ == admin@ ==> (r matches Ok(v) && v@.len()
            == 0),
        requestor matches Requestor::Fixed(a) && a@ != admin@ ==> (r matches Err(m) && m@
            == not_requestor_message()),
{
    match requestor {
        Requestor::OpenPayment(coin) => {
            let c = Coin { denom: String::from_str(coin.denom.as_str()), amount: coin.amount };
            let mut v = Vec::new();
            v.push(c);
            Ok(v)
        },
        Requestor::Fixed(addr) => {
            let a = str_chars(addr.as_str());
            let b = str_chars(admin);
            if !chars_eq(&a, &b) {
                Err(String::from_str("Only the requestor can pay for the task"))
            } else {
                Ok(Vec::new())
            }
        },
    }
}

// ---------------------------------------------------------------------------
// Report
// ---------------------------------------------------------------------------

/// An operator and its voting power.
#[derive(Clone, Debug)]
pub struct Operator {
    pub address: String,
    pub power: u128,
}

/// What is known about a deployed task queue.
#[derive(Debug)]
pub struct TaskQueueView {
    pub verifier_addr: String,
    pub operator_addr: String,
    pub owner_addr: Option<String>,
    pub operators: Vec<Operator>,
    pub tasks: Vec<TaskView>,
}

/// `n` written with exactly nine digits, zero-padded on the left (`n < 10⁹`).
pub open spec fn nine_digits(n: nat) -> Seq<char> {
    Seq::new((9 - decimal(n).len()) as nat, |i: int| '0') + decimal(n)
}

/// A timestamp in nanoseconds as `<seconds>.<nanoseconds, nine digits>`.
pub open spec fn timestamp_text(nanos: u64) -> Seq<char> {
    decimal((nanos / 1_000_000_000) as nat) + "."@ + nine_digits((nanos % 1_000_000_000) as nat)
}

/// The decimal text of `n` has at most nine digits when `n < 10⁹`.
proof fn lemma_decimal_len_bound(n: nat, k: nat, bound: nat)
    requires
        n < bound,
        bound == pow10(k),
        k >= 1,
    ensures
        decimal(n).len() <= k,
    decreases k,
{
    if n >= 10 {
        assert(n / 10 < pow10((k - 1) as nat)) by (nonlinear_arith)
            requires
                n < bound,
                bound == pow10(k),
                pow10(k) == 10 * pow10((k - 1) as nat),
        ;
        if k >= 2 {
            lemma_decimal_len_bound(n / 10, (k - 1) as nat, pow10((k - 1) as nat));
        } else {
            assert(pow10(0) == 1);
        }
    }
}

/// Leading zeros do not change the number digits denote.
proof fn lemma_leading_zeros(k: nat, x: Seq<char>)
    ensures
        digits_value(Seq::new(k, |i: int| '0') + x) == digits_value(x),
        all_digits(x) ==> all_digits(Seq::new(k, |i: int| '0') + x),
    decreases x.len() + k,
{
    let z = Seq::new(k, |i: int| '0');
    if x.len() == 0 {
        assert(z + x =~= z);
        if k > 0 {
            lemma_leading_zeros((k - 1) as nat, x);
            assert(z.drop_last() =~= Seq::new((k - 1) as nat, |i: int| '0') + x);
        }
    } else {
        lemma_leading_zeros(k, x.drop_last());
        assert((z + x).drop_last() =~= z + x.drop_last());
        assert((z + x).last() == x.last());
    }
    if all_digits(x) {
        assert forall|i: int| 0 <= i < (z + x).len() implies is_digit(#[trigger] (z + x)[i]) by {
            if i >= k {
                assert((z + x)[i] == x[i - k]);
            }
        }
    }
}

/// A timestamp's text reads back to it: whole seconds as decimal digits, a
/// dot, then nine digits; the seconds times 10⁹ plus the nine digits'
/// number is the timestamp in nanoseconds.
pub proof fn lemma_timestamp_text_reads_back(nanos: u64)
    ensures
        timestamp_text(nanos).len() >= 11,
        timestamp_text(nanos)[timestamp_text(nanos).len() - 10] == '.',
        all_digits(timestamp_text(nanos).subrange(0, timestamp_text(nanos).len() - 10)),
        all_digits(
            timestamp_text(nanos).subrange(
                timestamp_text(nanos).len() - 9,
                timestamp_text(nanos).len() as int,
            ),
        ),
        digits_value(timestamp_text(nanos).subrange(0, timestamp_text(nanos).len() - 10))
            * 1_000_000_000 + digits_value(
            timestamp_text(nanos).subrange(
                timestamp_text(nanos).len() - 9,
                timestamp_text(nanos).len() as int,
            ),
        ) == nanos,
{
    let q = (nanos / 1_000_000_000) as nat;
    let r = (nanos % 1_000_000_000) as nat;
    let t = timestamp_text(nanos);
    crate::text::lemma_decimal(q);
    crate::text::lemma_decimal(r);
    reveal_with_fuel(pow10, 10);
    assert(pow10(9) == 1_000_000_000);
    lemma_decimal_len_bound(r, 9, pow10(9));
    let l = decimal(r).len();
    let z = Seq::new((9 - l) as nat, |i: int| '0');
    lemma_leading_zeros((9 - l) as nat, decimal(r));
    let nd = nine_digits(r);
    assert(nd == z + decimal(r));
    assert(nd.len() == 9);
    assert(t == decimal(q) + "."@ + nd);
    reveal_strlit(".");
    assert(t.subrange(0, t.len() - 10) =~= decimal(q));
    assert(t.subrange(t.len() - 9, t.len() as int) =~= nd);
    assert(t[t.len() - 10] == '.');
    assert(q * 1_000_000_000 + r == nanos);
}

/// `10ᵏ`
pub open spec fn pow10(k: nat) -> nat
    decreases k,
{
    if k == 0 {
        1
    } else {
        10 * pow10((k - 1) as nat)
    }
}

/// Appends `n` zero-padded to nine digits.
fn push_nine_digits(out: &mut String, n: u64)
    requires
        n < 1_000_000_000,
    ensures
        final(out)@ == old(out)@ + nine_digits(n as nat),
{
    let digits = crate::text::u128_decimal(n as u128);
    proof {
        reveal_with_fuel(pow10, 10);
        assert(pow10(9) == 1_000_000_000);
        lemma_decimal_len_bound(n as nat, 9, pow10(9));
    }
    let mut pad: usize = 9 - digits.len();
    let ghost start = out@;
    let ghost total = pad;
    while pad > 0
        invariant
            pad <= total,
            out@ == start + Seq::new((total - pad) as nat, |i: int| '0'),
        decreases pad,
    {
        crate::text::push_chars(out, &['0']);
        pad = pad - 1;
        assert(out@ =~= start + Seq::new((total - pad) as nat, |i: int| '0'));
    }
    crate::text::push_chars(out, &digits);
    assert(out@ =~= start + nine_digits(n as nat));
}

/// Appends a timestamp as `<seconds>.<nanoseconds>`.
fn push_timestamp(out: &mut String, nanos: u64)
    ensures
        final(out)@ == old(out)@ + timestamp_text(nanos),
{
    push_decimal(out, (nanos / 1_000_000_000) as u128);
    out.append(".");
    push_nine_digits(out, nanos % 1_000_000_000);
    assert(out@ =~= old(out)@ + timestamp_text(nanos));
}

/// The line about the queue's owner.
pub open spec fn owner_line(owner: Option<String>) -> Seq<char> {
    "Owner: "@ + match owner {
        Some(o) => o@,
        None => "none"@,
    }
}

/// The line about one operator.
pub open spec fn operator_line(op: Operator) -> Seq<char> {
    "  - "@ + op.address@ + ": "@ + decimal(op.power as nat)
}

/// The three lines about one task, given its rendered data.
pub open spec fn task_lines(t: TaskView, data: Seq<char>) -> Seq<Seq<char>> {
    match t {
        TaskView::Open(o) => seq![
            "  - Open Task: "@ + decimal(o.id as nat),
            "    Expires: "@ + timestamp_text(o.expires),
            "    Payload: "@ + data,
        ],
        TaskView::Completed(c) => seq![
            "  - Completed Task: "@ + decimal(c.id as nat),
            "    Completed: "@ + decimal(c.completed as nat),
            "    Result: "@ + data,
        ],
    }
}

/// The lines of the report before the tasks.
pub open spec fn report_head(v: TaskQueueView) -> Seq<Seq<char>> {
    seq![
        owner_line(v.owner_addr),
        "Verifier: "@ + v.verifier_addr@,
        "Operator: "@ + v.operator_addr@,
        "\nOperators:"@,
    ] + v.operators@.map_values(|op: Operator| operator_line(op)) + seq!["\nTasks:"@]
}

/// The task lines for the first `n` tasks, given their rendered data.
pub open spec fn tasks_lines(tasks: Seq<TaskView>, data: Seq<Seq<char>>, n: nat) -> Seq<Seq<char>>
    decreases n,
{
    if n == 0 {
        Seq::empty()
    } else {
        tasks_lines(tasks, data, (n - 1) as nat) + task_lines(tasks[n - 1], data[n - 1])
    }
}

/// The rendered data of each task.
pub open spec fn rendered_data(tasks: Seq<TaskView>) -> Seq<Seq<char>> {
    tasks.map_values(|t: TaskView| pretty_json(json_view(task_data(t))))
}

/// The views of a vector of strings.
pub open spec fn string_views(v: Seq<String>) -> Seq<Seq<char>> {
    v.map_values(|s: String| s@)
}

impl TaskQueueView {
    /// The report lines when `data[i]` is the rendered data of task `i`.
    pub fn report_lines(&self, data: &Vec<String>) -> (r: Vec<String>)
        requires
            data@.len() == self.tasks@.len(),
        ensures
            string_views(r@) == report_head(*self) + tasks_lines(
                self.tasks@,
                string_views(data@),
                self.tasks@.len(),
            ),
    {
        let mut lines: Vec<String> = Vec::new();
        let mut l = String::from_str("Owner: ");
        match &self.owner_addr {
            Some(o) => l.append(o.as_str()),
            None => l.append("none"),
        }
        lines.push(l);
        let mut l = String::from_str("Verifier: ");
        l.append(self.verifier_addr.as_str());
        lines.push(l);
        let mut l = String::from_str("Operator: ");
        l.append(self.operator_addr.as_str());
        lines.push(l);
        lines.push(String::from_str("\nOperators:"));
        let ghost head0 = string_views(lines@);
        assert(head0 =~= seq![
            owner_line(self.owner_addr),
            "Verifier: "@ + self.verifier_addr@,
            "Operator: "@ + self.operator_addr@,
            "\nOperators:"@,
        ]);
        let mut i: usize = 0;
        while i < self.operators.len()
            invariant
                i <= self.operators@.len(),
                string_views(lines@) == head0 + self.operators@.take(i as int).map_values(
                    |op: Operator| operator_line(op),
                ),
            decreases self.operators@.len() - i,
        {
            let op = &self.operators[i];
            let mut l = String::from_str("  - ");
            l.append(op.address.as_str());
            l.append(": ");
            push_decimal(&mut l, op.power);
            assert(l@ =~= operator_line(*op));
            let ghost pre = string_views(lines@);
            lines.push(l);
            assert(string_views(lines@) =~= pre.push(operator_line(*op)));
            assert(self.operators@.take(i + 1 as int) =~= self.operators@.take(i as int).push(*op));
            i = i + 1;
            assert(string_views(lines@) =~= head0 + self.operators@.take(i as int).map_values(
                |op: Operator| operator_line(op),
            ));
        }
        lines.push(String::from_str("\nTasks:"));
        assert(self.operators@.take(self.operators@.len() as int) =~= self.operators@);
        assert(string_views(lines@) =~= report_head(*self));
        let ghost head = report_head(*self);
        let mut k: usize = 0;
        while k < self.tasks.len()
            invariant
                k <= self.tasks@.len(),
                data@.len() == self.tasks@.len(),
                head == report_head(*self),
                string_views(lines@) == head + tasks_lines(
                    self.tasks@,
                    string_views(data@),
                    k as nat,
                ),
            decreases self.tasks@.len() - k,
        {
            let ghost before = string_views(lines@);
            let d = data[k].as_str();
            match &self.tasks[k] {
                TaskView::Open(o) => {
                    let mut a = String::from_str("  - Open Task: ");
                    push_decimal(&mut a, o.id as u128);
                    lines.push(a);
                    let mut b = String::from_str("    Expires: ");
                    push_timestamp(&mut b, o.expires);
                    lines.push(b);
                    let mut c = String::from_str("    Payload: ");
                    c.append(d);
                    lines.push(c);
                },
                TaskView::Completed(t) => {
                    let mut a = String::from_str("  - Completed Task: ");
                    push_decimal(&mut a, t.id as u128);
                    lines.push(a);
                    let mut b = String::from_str("    Completed: ");
                    push_decimal(&mut b, t.completed as u128);
                    lines.push(b);
                    let mut c = String::from_str("    Result: ");
                    c.append(d);
                    lines.push(c);
                },
            }
            assert(string_views(data@)[k as int] == data@[k as int]@);
            assert(string_views(lines@) =~= before + task_lines(
                self.tasks@[k as int],
                string_views(data@)[k as int],
            ));
            k = k + 1;
        }
        lines
    }

    /// The report about the queue: its addresses, its operators, and each
    /// task with its data rendered as pretty JSON; refused when a task's data
    /// cannot be rendered.
    pub fn report(&self) -> (r: Result<Vec<String>, String>)
        ensures
            r matches Ok(lines) && string_views(lines@) == report_head(*self) + tasks_lines(
                self.tasks@,
                rendered_data(self.tasks@),
                self.tasks@.len(),
            ),
            r matches Err(m) ==> serialize_failure_prefix().is_prefix_of(m@),
    {
        let mut data: Vec<String> = Vec::new();
        let mut k: usize = 0;
        while k < self.tasks.len()
            invariant
                k <= self.tasks@.len(),
                string_views(data@) == rendered_data(self.tasks@).take(k as int),
            decreases self.tasks@.len() - k,
        {
            let s = self.tasks[k].data_json_string()?;
            assert(s@ == rendered_data(self.tasks@)[k as int]);
            let ghost pre = data@;
            data.push(s);
            assert(string_views(data@) =~= string_views(pre).push(s@));
            k = k + 1;
            assert(string_views(data@) =~= rendered_data(self.tasks@).take(k as int));
        }
        assert(string_views(data@) =~= rendered_data(self.tasks@));
        let lines = self.report_lines(&data);
        Ok(lines)
    }
}

} // verus!
