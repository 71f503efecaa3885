use monitor_core::channel::{Channels, Delivery, Topic};
use monitor_core::json::Json;
use monitor_core::permission::ResourceType;

fn stats(server: &str) -> Topic {
    Topic { family: ResourceType::Server, resource: server.to_string() }
}

fn log(deployment: &str) -> Topic {
    Topic { family: ResourceType::Deployment, resource: deployment.to_string() }
}

fn numbers(taken: Vec<Delivery>) -> Vec<i64> {
    taken.into_iter().map(|d| d.payload.as_int().expect("a number")).collect()
}

#[test]
fn a_snapshot_goes_to_the_subscribers_of_its_topic() {
    let mut c = Channels::new();
    assert!(c.subscribe(1, stats("a")));
    assert!(c.subscribe(2, stats("a")));
    assert!(c.subscribe(3, stats("b")));
    assert!(c.subscribe(3, log("a")));
    assert_eq!(c.publish(&stats("a"), &Json::Int(7)), 2);
    assert_eq!(
        c.take(1),
        vec![Delivery { subscriber: 1, topic: stats("a"), payload: Json::Int(7) }]
    );
    assert_eq!(numbers(c.take(2)), vec![7]);
    assert_eq!(c.take(3), vec![]);
    assert_eq!(c.publish(&stats("c"), &Json::Int(8)), 0);
}

#[test]
fn subscribing_twice_is_subscribing_once() {
    let mut c = Channels::new();
    assert!(c.subscribe(1, stats("a")));
    assert!(!c.subscribe(1, stats("a")));
    assert!(c.listens(1, &stats("a")));
    assert!(!c.listens(1, &stats("b")));
    assert!(!c.listens(2, &stats("a")));
    assert_eq!(c.publish(&stats("a"), &Json::Null), 1);
    assert_eq!(c.take(1).len(), 1);
}

#[test]
fn snapshots_come_out_in_the_order_they_were_published() {
    let mut c = Channels::new();
    c.subscribe(1, stats("a"));
    c.subscribe(2, stats("a"));
    c.subscribe(1, stats("b"));
    for n in 0..5 {
        c.publish(&stats("a"), &Json::Int(n));
        c.publish(&stats("b"), &Json::Int(100 + n));
    }
    assert_eq!(numbers(c.take(2)), vec![0, 1, 2, 3, 4]);
    assert_eq!(numbers(c.take(1)), vec![0, 100, 1, 101, 2, 102, 3, 103, 4, 104]);
    assert_eq!(c.take(1), vec![]);
    c.publish(&stats("a"), &Json::Int(5));
    assert_eq!(numbers(c.take(1)), vec![5]);
    assert_eq!(numbers(c.take(2)), vec![5]);
}

#[test]
fn disconnecting_touches_nobody_else() {
    let mut c = Channels::new();
    c.subscribe(1, stats("a"));
    c.subscribe(2, stats("a"));
    c.subscribe(1, log("x"));
    c.publish(&stats("a"), &Json::Int(1));
    c.disconnect(1);
    assert!(!c.listens(1, &stats("a")));
    assert!(!c.listens(1, &log("x")));
    assert!(c.listens(2, &stats("a")));
    assert_eq!(c.publish(&stats("a"), &Json::Int(2)), 1);
    assert_eq!(c.publish(&log("x"), &Json::Int(3)), 0);
    assert_eq!(c.take(1), vec![]);
    assert_eq!(numbers(c.take(2)), vec![1, 2]);
    c.disconnect(9);
    assert!(c.listens(2, &stats("a")));
}

#[test]
fn a_snapshot_is_copied_for_each_subscriber() {
    let mut c = Channels::new();
    c.subscribe(1, stats("a"));
    c.subscribe(2, stats("a"));
    let snapshot = Json::Object(vec![
        ("cpu".to_string(), Json::Int(12)),
        ("tags".to_string(), Json::Array(vec![Json::Str("x".to_string()), Json::Bool(true), Json::Null])),
    ]);
    c.publish(&stats("a"), &snapshot);
    assert_eq!(c.take(1)[0].payload, snapshot);
    assert_eq!(c.take(2)[0].payload, snapshot);
    assert_eq!(snapshot.duplicate(), snapshot);
}

#[test]
fn topics_and_deliveries_as_documents() {
    let topic = log("0000000000000004");
    let document = Json::Object(vec![
        ("family".to_string(), Json::Str("Deployment".to_string())),
        ("resource".to_string(), Json::Str("0000000000000004".to_string())),
    ]);
    assert_eq!(topic.to_json(), document);
    assert_eq!(Topic::from_json(&document), Some(log("0000000000000004")));
    assert_eq!(Topic::from_json(&Json::Object(vec![])), None);
    assert_eq!(
        Topic::from_json(&Json::Object(vec![
            ("family".to_string(), Json::Str("Cluster".to_string())),
            ("resource".to_string(), Json::Str("x".to_string())),
        ])),
        None
    );
    let delivery = Delivery { subscriber: 4, topic: stats("a"), payload: Json::Int(9) };
    assert_eq!(
        delivery.into_json(),
        Json::Object(vec![
            ("topic".to_string(), stats("a").to_json()),
            ("payload".to_string(), Json::Int(9)),
        ])
    );
}
