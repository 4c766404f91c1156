use tokio::runtime::{Builder, Runtime};
use zenoh_node::error::NodeError;
use zenoh_node::registry::SubscriptionMap;

fn runtime() -> Runtime {
    Builder::new_current_thread().build().unwrap()
}

fn let_tasks_run(rt: &Runtime) {
    rt.block_on(async {
        for _ in 0..20 {
            tokio::task::yield_now().await;
        }
    });
}

#[test]
fn duplicate_subscription_is_refused_while_running() {
    let rt = runtime();
    let mut map: SubscriptionMap<()> = SubscriptionMap::new();
    assert!(map.check_for_active_subscription("T").is_ok());
    let h = rt.spawn(std::future::pending::<()>());
    assert!(map.insert(String::from("T"), h).is_none());
    let_tasks_run(&rt);
    assert!(matches!(map.check_for_active_subscription("T"), Err(NodeError::ReceiveError)));
    assert_eq!(map.topics(), vec![String::from("T")]);
    map.abort_all();
}

#[test]
fn finished_subscription_is_reaped() {
    let rt = runtime();
    let mut map: SubscriptionMap<u8> = SubscriptionMap::new();
    let h = rt.spawn(async { 7u8 });
    assert!(map.insert(String::from("T"), h).is_none());
    let_tasks_run(&rt);
    assert!(map.check_for_active_subscription("T").is_ok());
    assert_eq!(map.len(), 0);
    let h = rt.spawn(std::future::pending::<u8>());
    assert!(map.insert(String::from("T"), h).is_none());
    assert_eq!(map.topics(), vec![String::from("T")]);
    map.abort_all();
}

#[test]
fn settle_decides_on_the_given_state() {
    let rt = runtime();
    let mut map: SubscriptionMap<()> = SubscriptionMap::new();
    assert!(map.settle("absent", false).is_ok());
    map.insert(String::from("a"), rt.spawn(std::future::pending::<()>()));
    map.insert(String::from("b"), rt.spawn(std::future::pending::<()>()));
    assert!(matches!(map.settle("a", false), Err(NodeError::ReceiveError)));
    assert_eq!(map.len(), 2);
    assert!(map.settle("a", true).is_ok());
    assert_eq!(map.topics(), vec![String::from("b")]);
    assert_eq!(map.find("b"), Some(0));
    assert_eq!(map.find("a"), None);
    map.abort_all();
}

#[test]
fn abort_cancels_every_task() {
    let rt = runtime();
    let mut map: SubscriptionMap<()> = SubscriptionMap::new();
    for t in ["x", "y", "z"] {
        map.insert(String::from(t), rt.spawn(std::future::pending::<()>()));
    }
    let_tasks_run(&rt);
    map.abort_all();
    map.abort_all();
    let_tasks_run(&rt);
    let tasks = map.into_tasks();
    assert_eq!(tasks.len(), 3);
    for task in tasks {
        let res = rt.block_on(task.handle);
        assert!(res.unwrap_err().is_cancelled());
    }
}

#[test]
fn insert_on_taken_topic_hands_back_old_task() {
    let rt = runtime();
    let mut map: SubscriptionMap<u8> = SubscriptionMap::new();
    map.insert(String::from("t"), rt.spawn(async { 1u8 }));
    let old = map.insert(String::from("t"), rt.spawn(async { 2u8 }));
    assert_eq!(rt.block_on(old.unwrap()).unwrap(), 1);
    let tasks = map.into_tasks();
    assert_eq!(tasks.len(), 1);
    assert_eq!(tasks[0].topic, "t");
}

#[test]
fn reaped_task_is_not_handed_out() {
    let rt = runtime();
    let mut map: SubscriptionMap<u8> = SubscriptionMap::new();
    map.insert(String::from("a"), rt.spawn(std::future::pending::<u8>()));
    map.insert(String::from("t"), rt.spawn(async { 1u8 }));
    map.insert(String::from("b"), rt.spawn(std::future::pending::<u8>()));
    let_tasks_run(&rt);
    assert!(map.check_for_active_subscription("t").is_ok());
    assert!(map.insert(String::from("t"), rt.spawn(async { 2u8 })).is_none());
    let_tasks_run(&rt);
    assert!(matches!(map.check_for_active_subscription("a"), Err(NodeError::ReceiveError)));
    map.abort_all();
    let tasks = map.into_tasks();
    let topics: Vec<&str> = tasks.iter().map(|t| t.topic.as_str()).collect();
    assert_eq!(topics, vec!["a", "b", "t"]);
    let mut outcomes = Vec::new();
    for task in tasks {
        outcomes.push(rt.block_on(task.handle).ok());
    }
    assert_eq!(outcomes, vec![None, None, Some(2)]);
}
