use testcontainers::image::{Image, WaitFor};
use testcontainers::kafka::{Kafka, KafkaArgs, KAFKA_PORT};

#[test]
fn default_profile_has_fixed_name_and_tag() {
    let kafka = Kafka::default();
    assert_eq!(kafka.name(), "confluentinc/cp-kafka");
    assert_eq!(kafka.tag(), "6.1.1");
}

#[test]
fn default_profile_declares_the_broker_environment() {
    let kafka = Kafka::default();
    let env = kafka.env_vars();
    assert_eq!(env.len(), 7);
    assert!(env.contains(&(
        "KAFKA_ZOOKEEPER_CONNECT".to_string(),
        "localhost:2181".to_string(),
    )));
    assert!(env.contains(&(
        "KAFKA_ADVERTISED_LISTENERS".to_string(),
        format!("PLAINTEXT://localhost:{},BROKER://localhost:9092", KAFKA_PORT),
    )));
    assert!(env.contains(&("KAFKA_BROKER_ID".to_string(), "1".to_string())));
    for (i, (key, _)) in env.iter().enumerate() {
        for (other, _) in env.iter().skip(i + 1) {
            assert_ne!(key, other);
        }
    }
}

#[test]
fn readiness_waits_for_the_log_file_message() {
    let kafka = Kafka::default();
    let conditions = kafka.ready_conditions();
    assert_eq!(conditions.len(), 1);
    match &conditions[0] {
        WaitFor::MessageOnStdout { message } => assert_eq!(message, "Creating new log file"),
        WaitFor::MessageOnStderr { .. } => panic!("readiness should watch standard output"),
    }
}

#[test]
fn launch_arguments_start_zookeeper_then_the_broker() {
    let args = KafkaArgs.into_args();
    assert_eq!(args.len(), 3);
    assert_eq!(args[0], "/bin/bash");
    assert_eq!(args[1], "-c");
    assert!(args[2].contains("clientPort=2181"));
    assert!(args[2].contains("zookeeper-server-start"));
    assert!(args[2].contains("/etc/confluent/docker/launch"));
    assert_eq!(kafka_args_via_image(&Kafka::default()), args);
}

fn kafka_args_via_image(image: &Kafka) -> Vec<String> {
    image.args()
}

#[test]
fn wait_conditions_carry_their_message() {
    match WaitFor::message_on_stdout("up") {
        WaitFor::MessageOnStdout { message } => assert_eq!(message, "up"),
        _ => panic!("wrong variant"),
    }
    match WaitFor::message_on_stderr("warned") {
        WaitFor::MessageOnStderr { message } => assert_eq!(message, "warned"),
        _ => panic!("wrong variant"),
    }
}
