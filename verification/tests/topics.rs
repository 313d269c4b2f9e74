use kafctl::command::{failure, line_of, success, unparsed, Action, Exit, Method, Request, Stream};
use kafctl::consume::Consume;
use kafctl::invocation::Invocation;
use kafctl::schemas::Schemas;
use kafctl::topics::describe::{
    Broker, Describe, DescribeError, Partition, PartitionMeta, Topic,
};
use kafctl::topics::list::{listed, List, Unserialisable};
use kafctl::topics::{SubCommand, Topics};

fn names(list: &[&str]) -> Vec<String> {
    list.iter().map(|n| n.to_string()).collect()
}

fn led(id: i32, broker: i32, host: &str) -> PartitionMeta {
    PartitionMeta {
        id,
        is_available: true,
        leader: Some(Broker { id: broker, host: host.to_string() }),
    }
}

fn describe(topic: &str) -> Describe {
    Describe { bootstrap_servers: "h:9092".to_string(), topic: topic.to_string() }
}

#[test]
fn list_loads_every_topic_from_one_entry() {
    let l = List { bootstrap_servers: "a:9092,b:9092".to_string() };
    assert_eq!(l.run(), Action::LoadTopics { hosts: names(&["a:9092,b:9092"]) });
}

#[test]
fn names_are_written_as_a_pretty_array() {
    let l = List { bootstrap_servers: "h:9092".to_string() };
    assert_eq!(
        l.loaded(&names(&["topicA", "topicB"])),
        Ok(Exit {
            stream: Stream::Stdout,
            text: "[\n  \"topicA\",\n  \"topicB\"\n]\n".to_string(),
            code: 0
        })
    );
}

#[test]
fn names_keep_their_order() {
    let l = List { bootstrap_servers: "h:9092".to_string() };
    let exit = l.loaded(&names(&["z", "a", "m"])).unwrap();
    assert_eq!(exit.text, "[\n  \"z\",\n  \"a\",\n  \"m\"\n]\n");
}

#[test]
fn no_topic_gives_an_empty_array() {
    let l = List { bootstrap_servers: "h:9092".to_string() };
    assert_eq!(l.loaded(&Vec::new()), Ok(success(&"[]".to_string())));
}

#[test]
fn names_are_escaped_as_json_strings() {
    let l = List { bootstrap_servers: "h:9092".to_string() };
    let exit = l.loaded(&names(&["a\"b\\c"])).unwrap();
    assert_eq!(exit.text, "[\n  \"a\\\"b\\\\c\"\n]\n");
    assert_eq!(exit.code, 0);
}

#[test]
fn a_rendering_ends_the_listing() {
    assert_eq!(
        listed(Some("[]".to_string())),
        Ok(Exit { stream: Stream::Stdout, text: "[]\n".to_string(), code: 0 })
    );
    assert_eq!(listed(None), Err(Unserialisable));
}

#[test]
fn describe_loads_its_topic() {
    assert_eq!(
        describe("t").run(),
        Action::LoadTopic { hosts: names(&["h:9092"]), topic: "t".to_string() }
    );
}

#[test]
fn a_single_partition_topic_is_described() {
    let report = Some(vec![led(0, 1, "h:9092")]);
    assert_eq!(
        describe("t").loaded(&report),
        Ok(Topic {
            name: "t".to_string(),
            partitions: vec![Partition {
                id: 0,
                is_available: true,
                leader: Broker { id: 1, host: "h:9092".to_string() },
            }],
        })
    );
}

#[test]
fn partitions_keep_their_place_and_what_was_reported() {
    let report = Some(vec![
        led(2, 10, "b:9092"),
        PartitionMeta {
            id: 0,
            is_available: false,
            leader: Some(Broker { id: -1, host: String::new() }),
        },
        led(1, 11, "c:9092"),
    ]);
    let topic = describe("orders").loaded(&report).unwrap();
    assert_eq!(topic.name, "orders");
    assert_eq!(topic.partitions.len(), 3);
    assert_eq!(topic.partitions[0].id, 2);
    assert_eq!(topic.partitions[0].leader, Broker { id: 10, host: "b:9092".to_string() });
    assert_eq!(topic.partitions[1].id, 0);
    assert!(!topic.partitions[1].is_available);
    assert_eq!(topic.partitions[1].leader, Broker { id: -1, host: String::new() });
    assert_eq!(topic.partitions[2].id, 1);
    assert_eq!(topic.partitions[2].leader.host, "c:9092");
}

#[test]
fn a_topic_without_partitions_is_described() {
    assert_eq!(
        describe("t").loaded(&Some(Vec::new())),
        Ok(Topic { name: "t".to_string(), partitions: Vec::new() })
    );
}

#[test]
fn an_unknown_topic_is_an_error() {
    assert_eq!(describe("t").loaded(&None), Err(DescribeError::UnknownTopic));
}

#[test]
fn the_first_partition_without_a_leader_is_named() {
    let report = Some(vec![
        led(4, 1, "h:9092"),
        PartitionMeta { id: 7, is_available: false, leader: None },
        PartitionMeta { id: 5, is_available: false, leader: None },
    ]);
    assert_eq!(describe("t").loaded(&report), Err(DescribeError::NoLeader { partition: 7 }));
    let only = Some(vec![PartitionMeta { id: 0, is_available: true, leader: None }]);
    assert_eq!(describe("t").loaded(&only), Err(DescribeError::NoLeader { partition: 0 }));
}

#[test]
fn consume_says_its_name() {
    let c = Consume { bootstrap_servers: "h:9092".to_string() };
    assert_eq!(
        c.run(),
        Action::Exit(Exit { stream: Stream::Stdout, text: "consume\n".to_string(), code: 0 })
    );
}

#[test]
fn topics_runs_its_subcommand() {
    let l = List { bootstrap_servers: "h:9092".to_string() };
    let t = Topics { sub_command: SubCommand::List(l.clone()) };
    assert_eq!(t.run(), l.run());
    let d = describe("t");
    let t = Topics { sub_command: SubCommand::Describe(d.clone()) };
    assert_eq!(t.run(), d.run());
    assert_eq!(t.run(), Action::LoadTopic { hosts: names(&["h:9092"]), topic: "t".to_string() });
}

#[test]
fn an_invocation_runs_its_verb() {
    let c = Consume { bootstrap_servers: "h:9092".to_string() };
    assert_eq!(Invocation::Consume(c.clone()).run(), c.run());
    let t = Topics { sub_command: SubCommand::List(List { bootstrap_servers: "h".to_string() }) };
    assert_eq!(
        Invocation::Topics(t).run(),
        Action::LoadTopics { hosts: names(&["h"]) }
    );
    let s = Schemas {
        url: "http://r".to_string(),
        list: true,
        subject: None,
        version: None,
        delete: false,
        schema: false,
        register: false,
        check: false,
        escaped_schema: None,
    };
    assert_eq!(
        Invocation::Schemas(s).run(),
        Action::Send(Request {
            method: Method::Get,
            url: "http://r/subjects".to_string(),
            body: None
        })
    );
}

#[test]
fn a_line_ends_with_a_line_feed() {
    assert_eq!(line_of(&"abc".to_string()), "abc\n");
    assert_eq!(line_of(&String::new()), "\n");
    assert_eq!(line_of(&"a\n".to_string()), "a\n\n");
}

#[test]
fn success_and_failure_differ_in_stream_and_code() {
    assert_eq!(
        success(&"ok".to_string()),
        Exit { stream: Stream::Stdout, text: "ok\n".to_string(), code: 0 }
    );
    assert_eq!(
        failure(&"connection refused".to_string()),
        Exit { stream: Stream::Stderr, text: "connection refused\n".to_string(), code: 1 }
    );
}

#[test]
fn a_usage_error_exits_with_two() {
    assert_eq!(
        unparsed(false, "error: unknown flag\n".to_string()),
        Exit { stream: Stream::Stderr, text: "error: unknown flag\n".to_string(), code: 2 }
    );
}

#[test]
fn help_exits_with_zero() {
    assert_eq!(
        unparsed(true, "USAGE:\n".to_string()),
        Exit { stream: Stream::Stdout, text: "USAGE:\n".to_string(), code: 0 }
    );
}
