use walrus_core::protocol::curl_commands;
use walrus_core::protocol::Instance;
use walrus_core::protocol::ProtocolMetrics;

struct TestProtocolMetrics;

impl ProtocolMetrics for TestProtocolMetrics {
    fn benchmark_duration(&self) -> String {
        "benchmark_duration".to_string()
    }

    fn total_transactions(&self) -> String {
        "latency_s_count".to_string()
    }

    fn latency_buckets(&self) -> String {
        "latency_s".to_string()
    }

    fn latency_sum(&self) -> String {
        "latency_s_sum".to_string()
    }

    fn latency_squared_sum(&self) -> String {
        "latency_squared_s".to_string()
    }

    fn nodes_metrics_path(&self, instances: Vec<Instance>) -> Vec<(Instance, String)> {
        instances
            .into_iter()
            .enumerate()
            .map(|(i, instance)| (instance, format!("localhost:{}/metrics", 8000 + i)))
            .collect()
    }

    fn clients_metrics_path(&self, instances: Vec<Instance>) -> Vec<(Instance, String)> {
        instances
            .into_iter()
            .enumerate()
            .map(|(i, instance)| (instance, format!("localhost:{}/metrics", 9000 + i)))
            .collect()
    }
}

#[test]
fn metrics_commands_fetch_each_path() {
    let metrics = TestProtocolMetrics;
    let instances = vec![Instance { id: 0 }, Instance { id: 1 }];
    let commands = metrics.nodes_metrics_command(instances.clone());
    assert_eq!(commands.len(), 2);
    assert_eq!(commands[0].0, Instance { id: 0 });
    assert_eq!(commands[0].1, "curl localhost:8000/metrics");
    assert_eq!(commands[1].1, "curl localhost:8001/metrics");
    let commands = metrics.clients_metrics_command(instances);
    assert_eq!(commands[1].0, Instance { id: 1 });
    assert_eq!(commands[1].1, "curl localhost:9001/metrics");
}

#[test]
fn curl_commands_keep_instances_and_prefix_paths() {
    let paths = vec![(Instance { id: 7 }, "example:1234/metrics".to_string())];
    let commands = curl_commands(paths);
    assert_eq!(commands, vec![(Instance { id: 7 }, "curl example:1234/metrics".to_string())]);
    assert_eq!(curl_commands(vec![]), vec![]);
}
