use avs_toolkit::task_queue::{
    merge_tasks, task_payment, CompletedTaskOverview, Coin, OpenTaskOverview, Operator, Order,
    Requestor, TaskQueueView, TaskView,
};
use avs_toolkit::bouncer::json::JsonValue;
use avs_toolkit::verifier_helper::{
    check_vote_validity, initialize_task_metadata, mul_ceil_percent, TaskStatus,
    TaskStatusResponse, TotalPowerResponse,
};

#[test]
fn vote_needs_power_and_no_earlier_vote() {
    assert_eq!(check_vote_validity::<u8>(None, 1), Ok(()));
    assert_eq!(check_vote_validity(Some(1u8), 10), Err("Operator already voted".to_string()));
    assert_eq!(check_vote_validity(Some(1u8), 0), Err("Operator already voted".to_string()));
    assert_eq!(
        check_vote_validity::<u8>(None, 0),
        Err("Unauthorized: voting power is zero".to_string())
    );
}

#[test]
fn required_power_rounds_up() {
    assert_eq!(mul_ceil_percent(10, 67), 7);
    assert_eq!(mul_ceil_percent(100, 67), 67);
    assert_eq!(mul_ceil_percent(3, 50), 2);
    assert_eq!(mul_ceil_percent(0, 90), 0);
    assert_eq!(mul_ceil_percent(7, 0), 0);
    assert_eq!(mul_ceil_percent(1, 1), 1);
    assert_eq!(mul_ceil_percent(u128::MAX, 100), u128::MAX);
}

#[test]
fn metadata_starts_only_for_open_tasks() {
    let open = TaskStatusResponse { status: TaskStatus::Open, created_height: 12, expires_time: 99 };
    let m = initialize_task_metadata(open, TotalPowerResponse { power: 300 }, 51).unwrap();
    assert_eq!(m.power_required, 153);
    assert_eq!(m.status, TaskStatus::Open);
    assert_eq!(m.created_height, 12);
    assert_eq!(m.expires_time, 99);
    let done = TaskStatusResponse { status: TaskStatus::Completed, ..open };
    assert_eq!(
        initialize_task_metadata(done, TotalPowerResponse { power: 300 }, 51),
        Err("Task is already completed".to_string())
    );
    let expired = TaskStatusResponse { status: TaskStatus::Expired, ..open };
    assert_eq!(
        initialize_task_metadata(expired, TotalPowerResponse { power: 300 }, 51),
        Err("Task is expired".to_string())
    );
}

fn object_x(id: u64) -> JsonValue {
    JsonValue::Object(vec![("x".to_string(), JsonValue::Number(id.to_string()))])
}

fn serde_object_x(id: u64) -> serde_json::Value {
    let mut m = serde_json::Map::new();
    m.insert("x".to_string(), serde_json::Value::from(id));
    serde_json::Value::Object(m)
}

fn open(id: u64) -> OpenTaskOverview {
    OpenTaskOverview { id, expires: 1_500_000_000_000_000_007, payload: object_x(id) }
}

fn completed(id: u64) -> CompletedTaskOverview {
    CompletedTaskOverview { id, completed: 77, result: JsonValue::String("done".to_string()) }
}

#[test]
fn tasks_are_merged_in_order() {
    let ids = |v: &Vec<TaskView>| v.iter().map(|t| t.id()).collect::<Vec<u64>>();
    let asc = merge_tasks(vec![open(5), open(1)], vec![completed(3), completed(4)], Order::Ascending);
    assert_eq!(ids(&asc), vec![1, 3, 4, 5]);
    let desc = merge_tasks(vec![open(5), open(1)], vec![completed(3), completed(4)], Order::Descending);
    assert_eq!(ids(&desc), vec![5, 4, 3, 1]);
    assert!(matches!(desc[1], TaskView::Completed(_)));
    assert!(merge_tasks(Vec::new(), Vec::new(), Order::Ascending).is_empty());
}

#[test]
fn payment_follows_the_requestor() {
    let coin = Coin { denom: "uslay".to_string(), amount: 9 };
    assert_eq!(task_payment(&Requestor::OpenPayment(coin.clone()), "anyone"), Ok(vec![coin]));
    assert_eq!(task_payment(&Requestor::Fixed("admin".to_string()), "admin"), Ok(vec![]));
    assert_eq!(
        task_payment(&Requestor::Fixed("admin".to_string()), "other"),
        Err("Only the requestor can pay for the task".to_string())
    );
}

#[test]
fn report_lists_queue_operators_and_tasks() {
    let view = TaskQueueView {
        verifier_addr: "ver".to_string(),
        operator_addr: "ops".to_string(),
        owner_addr: None,
        operators: vec![Operator { address: "op1".to_string(), power: 10 }],
        tasks: vec![TaskView::Open(open(2)), TaskView::Completed(completed(1))],
    };
    let lines = view.report().unwrap();
    assert_eq!(
        lines,
        vec![
            "Owner: none".to_string(),
            "Verifier: ver".to_string(),
            "Operator: ops".to_string(),
            "\nOperators:".to_string(),
            "  - op1: 10".to_string(),
            "\nTasks:".to_string(),
            "  - Open Task: 2".to_string(),
            "    Expires: 1500000000.000000007".to_string(),
            format!("    Payload: {}", serde_json::to_string_pretty(&serde_object_x(2)).unwrap()),
            "  - Completed Task: 1".to_string(),
            "    Completed: 77".to_string(),
            "    Result: \"done\"".to_string(),
        ]
    );
    let owned = TaskQueueView { owner_addr: Some("me".to_string()), tasks: vec![], ..view };
    assert_eq!(owned.report().unwrap()[0], "Owner: me");
    assert_eq!(owned.report().unwrap().len(), 6);
}

#[test]
fn task_data_is_pretty_json() {
    let t = TaskView::Completed(completed(4));
    assert_eq!(t.id(), 4);
    assert_eq!(t.data_json_string().unwrap(), "\"done\"");
}

#[test]
fn equal_ids_keep_their_listing_order() {
    let asc = merge_tasks(vec![open(3), open(1)], vec![completed(3), completed(1)], Order::Ascending);
    let kinds: Vec<(u64, bool)> = asc.iter().map(|t| (t.id(), matches!(t, TaskView::Open(_)))).collect();
    assert_eq!(kinds, vec![(1, true), (1, false), (3, true), (3, false)]);
    let desc = merge_tasks(vec![open(1), open(3)], vec![completed(3)], Order::Descending);
    let kinds: Vec<(u64, bool)> = desc.iter().map(|t| (t.id(), matches!(t, TaskView::Open(_)))).collect();
    assert_eq!(kinds, vec![(3, true), (3, false), (1, true)]);
}

#[test]
fn task_data_renders_the_task_own_json() {
    let nested = JsonValue::Object(vec![
        ("list".to_string(), JsonValue::Array(vec![JsonValue::Bool(true), JsonValue::Null, JsonValue::Number("-1.5".to_string())])),
        ("text".to_string(), JsonValue::String("a\"b".to_string())),
        ("empty".to_string(), JsonValue::Object(vec![])),
    ]);
    let t = TaskView::Open(OpenTaskOverview { id: 1, expires: 0, payload: nested });
    assert_eq!(
        t.data_json_string().unwrap(),
        "{\n  \"empty\": {},\n  \"list\": [\n    true,\n    null,\n    -1.5\n  ],\n  \"text\": \"a\\\"b\"\n}"
    );
    let c = TaskView::Completed(CompletedTaskOverview { id: 2, completed: 3, result: JsonValue::Number("7".to_string()) });
    assert_eq!(c.data_json_string().unwrap(), "7");
}
