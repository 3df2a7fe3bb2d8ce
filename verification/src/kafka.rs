//! A message-broker image profile: the Kafka configuration the wait engine
//! is typically pointed at.
//!
//! The profile is data, not engine logic: a name and tag, the environment a
//! single-node broker needs, the launch script, and the one readiness
//! condition — a line on standard output announcing a fresh log file.

use crate::image::{env_keys_unique, Image, WaitFor, WaitForView};
use vstd::prelude::*;

verus! {

/// The host port the broker's plaintext listener is published on.
pub const KAFKA_PORT: u16 = 9093;

/// The startup arguments of the broker container: a shell that writes the
/// zookeeper configuration, starts zookeeper, and launches the broker.
#[derive(Clone, Copy, Debug, Default)]
pub struct KafkaArgs;

/// The launch command line, word for word.
pub open spec fn kafka_launch_args() -> Seq<Seq<char>> {
    seq![
        "/bin/bash"@,
        "-c"@,
        "\necho 'clientPort=2181' > zookeeper.properties;\necho 'dataDir=/var/lib/zookeeper/data' >> zookeeper.properties;\necho 'dataLogDir=/var/lib/zookeeper/log' >> zookeeper.properties;\nzookeeper-server-start zookeeper.properties &\n. /etc/confluent/docker/bash-config &&\n/etc/confluent/docker/configure &&\n/etc/confluent/docker/launch"@,
    ]
}

impl KafkaArgs {
    /// The argument sequence handed to the container runtime.
    pub fn into_args(self) -> (r: Vec<String>)
        ensures
            r.deep_view() == kafka_launch_args(),
    {
        let mut args: Vec<String> = Vec::new();
        args.push(String::from_str("/bin/bash"));
        args.push(String::from_str("-c"));
        args.push(
            String::from_str(
                "\necho 'clientPort=2181' > zookeeper.properties;\necho 'dataDir=/var/lib/zookeeper/data' >> zookeeper.properties;\necho 'dataLogDir=/var/lib/zookeeper/log' >> zookeeper.properties;\nzookeeper-server-start zookeeper.properties &\n. /etc/confluent/docker/bash-config &&\n/etc/confluent/docker/configure &&\n/etc/confluent/docker/launch",
            ),
        );
        proof {
            assert(args.deep_view() =~= kafka_launch_args());
        }
        args
    }
}

/// The environment a single-node broker boots with, in declaration order.
pub open spec fn kafka_default_env() -> Seq<(Seq<char>, Seq<char>)> {
    seq![
        ("KAFKA_ZOOKEEPER_CONNECT"@, "localhost:2181"@),
        ("KAFKA_LISTENERS"@, "PLAINTEXT://0.0.0.0:9093,BROKER://0.0.0.0:9092"@),
        ("KAFKA_LISTENER_SECURITY_PROTOCOL_MAP"@, "BROKER:PLAINTEXT,PLAINTEXT:PLAINTEXT"@),
        ("KAFKA_INTER_BROKER_LISTENER_NAME"@, "BROKER"@),
        ("KAFKA_ADVERTISED_LISTENERS"@, "PLAINTEXT://localhost:9093,BROKER://localhost:9092"@),
        ("KAFKA_BROKER_ID"@, "1"@),
        ("KAFKA_OFFSETS_TOPIC_REPLICATION_FACTOR"@, "1"@),
    ]
}

/// No two of the default environment entries share a key.
pub proof fn lemma_kafka_default_env_keys_unique()
    ensures
        env_keys_unique(kafka_default_env()),
{
    reveal_strlit("KAFKA_ZOOKEEPER_CONNECT");
    reveal_strlit("KAFKA_LISTENERS");
    reveal_strlit("KAFKA_LISTENER_SECURITY_PROTOCOL_MAP");
    reveal_strlit("KAFKA_INTER_BROKER_LISTENER_NAME");
    reveal_strlit("KAFKA_ADVERTISED_LISTENERS");
    reveal_strlit("KAFKA_BROKER_ID");
    reveal_strlit("KAFKA_OFFSETS_TOPIC_REPLICATION_FACTOR");
    assert("KAFKA_ZOOKEEPER_CONNECT"@.len() == 23);
    assert("KAFKA_LISTENERS"@.len() == 15);
    assert("KAFKA_LISTENER_SECURITY_PROTOCOL_MAP"@.len() == 36);
    assert("KAFKA_INTER_BROKER_LISTENER_NAME"@.len() == 32);
    assert("KAFKA_ADVERTISED_LISTENERS"@.len() == 26);
    assert("KAFKA_BROKER_ID"@.len() == 15);
    assert("KAFKA_OFFSETS_TOPIC_REPLICATION_FACTOR"@.len() == 38);
    assert("KAFKA_LISTENERS"@[6] == 'L');
    assert("KAFKA_BROKER_ID"@[6] == 'B');
    assert(env_keys_unique(kafka_default_env()));
}

/// The broker image profile: fixed name, configurable tag, the default
/// single-node environment, and the log-message readiness condition.
#[derive(Debug)]
pub struct Kafka {
    arguments: KafkaArgs,
    env_vars: Vec<(String, String)>,
    tag: String,
}

impl Kafka {
    /// Every profile carries an environment with unique keys.
    #[verifier::type_invariant]
    spec fn inv(self) -> bool {
        env_keys_unique(self.env_vars.deep_view())
    }
}

impl Default for Kafka {
    /// The default profile: tag `6.1.1`, the single-node environment with
    /// unique keys, readiness on the broker's `Creating new log file` line.
    fn default() -> (k: Kafka)
        ensures
            k.spec_tag() == "6.1.1"@,
            k.spec_env_vars() == kafka_default_env(),
            (k.spec_ready_conditions() == seq![
                WaitForView::MessageOnStdout { message: "Creating new log file"@ },
            ]),
    {
        let mut env_vars: Vec<(String, String)> = Vec::new();
        env_vars.push(
            (String::from_str("KAFKA_ZOOKEEPER_CONNECT"), String::from_str("localhost:2181")),
        );
        env_vars.push(
            (
                String::from_str("KAFKA_LISTENERS"),
                String::from_str("PLAINTEXT://0.0.0.0:9093,BROKER://0.0.0.0:9092"),
            ),
        );
        env_vars.push(
            (
                String::from_str("KAFKA_LISTENER_SECURITY_PROTOCOL_MAP"),
                String::from_str("BROKER:PLAINTEXT,PLAINTEXT:PLAINTEXT"),
            ),
        );
        env_vars.push(
            (String::from_str("KAFKA_INTER_BROKER_LISTENER_NAME"), String::from_str("BROKER")),
        );
        env_vars.push(
            (
                String::from_str("KAFKA_ADVERTISED_LISTENERS"),
                String::from_str("PLAINTEXT://localhost:9093,BROKER://localhost:9092"),
            ),
        );
        env_vars.push((String::from_str("KAFKA_BROKER_ID"), String::from_str("1")));
        env_vars.push(
            (String::from_str("KAFKA_OFFSETS_TOPIC_REPLICATION_FACTOR"), String::from_str("1")),
        );
        proof {
            assert(env_vars.deep_view() =~= kafka_default_env());
            lemma_kafka_default_env_keys_unique();
        }
        Kafka { arguments: KafkaArgs, env_vars, tag: String::from_str("6.1.1") }
    }
}

impl Image for Kafka {
    open spec fn spec_name(&self) -> Seq<char> {
        "confluentinc/cp-kafka"@
    }

    closed spec fn spec_tag(&self) -> Seq<char> {
        self.tag@
    }

    closed spec fn spec_env_vars(&self) -> Seq<(Seq<char>, Seq<char>)> {
        self.env_vars.deep_view()
    }

    open spec fn spec_args(&self) -> Seq<Seq<char>> {
        kafka_launch_args()
    }

    open spec fn spec_ready_conditions(&self) -> Seq<WaitForView> {
        seq![WaitForView::MessageOnStdout { message: "Creating new log file"@ }]
    }

    fn name(&self) -> (r: String) {
        String::from_str("confluentinc/cp-kafka")
    }

    fn tag(&self) -> (r: String) {
        self.tag.clone()
    }

    fn env_vars<'a>(&'a self) -> (r: &'a Vec<(String, String)>) {
        proof {
            use_type_invariant(self);
        }
        &self.env_vars
    }

    fn args(&self) -> (r: Vec<String>) {
        self.arguments.into_args()
    }

    fn ready_conditions(&self) -> (r: Vec<WaitFor>) {
        let mut conditions: Vec<WaitFor> = Vec::new();
        conditions.push(WaitFor::message_on_stdout("Creating new log file"));
        proof {
            assert(conditions.deep_view() =~= self.spec_ready_conditions());
        }
        conditions
    }
}

} // verus!
