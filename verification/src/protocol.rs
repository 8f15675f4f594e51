//! The minimum interface a protocol exposes so that a deployment and
//! benchmark layer can install it, launch its nodes and clients, and
//! scrape their metrics. The certificate core itself never depends on
//! this layer; it only consumes the signed confirmations that deployed
//! nodes send back.

use vstd::prelude::*;
use vstd::string::StringExecFns;

verus! {

/// One deployed machine a command can be addressed to.
#[derive(Debug, Clone, Copy, PartialEq, Eq, Structural)]
pub struct Instance {
    /// Identifier of the machine in the deployment.
    pub id: u64,
}

/// Parameters of one benchmark run, handed to the protocol when it
/// generates configuration and load.
#[derive(Debug, Clone, Copy, PartialEq, Eq, Structural)]
pub struct BenchmarkParameters {
    /// Number of storage nodes in the run.
    pub nodes: u64,
    /// Offered client load, in operations per second.
    pub load: u64,
}

/// Marker for the protocol-specific parameter types a deployment layer
/// passes through to nodes and clients.
pub trait ProtocolParameters: Clone {

}

/// The minimum interface that the protocol should implement to allow
/// benchmarks from the orchestrating deployment layer.
pub trait ProtocolCommands {
    /// The list of dependencies to install (e.g., through a package
    /// manager).
    fn protocol_dependencies(&self) -> Vec<String>;

    /// The directories of all databases (that should be erased before
    /// each run).
    fn db_directories(&self) -> Vec<String>;

    /// The commands that clean up the remains of a previous run.
    fn cleanup_commands(&self) -> Vec<String>;

    /// The command to generate the genesis and all configuration files.
    /// This command is run on each remote machine.
    fn genesis_command(&self, instances: &Vec<Instance>, parameters: &BenchmarkParameters)
        -> String;

    /// The command to run a node, for each instance on which to run it.
    fn node_command(&self, instances: Vec<Instance>, parameters: &BenchmarkParameters) -> Vec<
        (Instance, String),
    >;

    /// The command to start monitoring, for each instance on which to
    /// run it.
    fn monitor_command(&self, instances: Vec<Instance>) -> Vec<(Instance, String)>;

    /// The command to run a client, for each instance on which to run
    /// it.
    fn client_command(&self, instances: Vec<Instance>, parameters: &BenchmarkParameters) -> Vec<
        (Instance, String),
    >;
}

/// The names of the minimum metrics exposed by the protocol that are
/// required to compute performance, and where they are exposed.
pub trait ProtocolMetrics {
    /// The name of the metric reporting the total duration of the
    /// benchmark (in seconds).
    fn benchmark_duration(&self) -> String;

    /// The name of the metric reporting the total number of finalized
    /// transactions.
    fn total_transactions(&self) -> String;

    /// The name of the metric reporting the latency buckets.
    fn latency_buckets(&self) -> String;

    /// The name of the metric reporting the sum of the end-to-end
    /// latency of all finalized transactions.
    fn latency_sum(&self) -> String;

    /// The name of the metric reporting the square of the sum of the
    /// end-to-end latency of all finalized transactions.
    fn latency_squared_sum(&self) -> String;

    /// The network path where the nodes expose their metrics.
    fn nodes_metrics_path(&self, instances: Vec<Instance>) -> Vec<(Instance, String)>;

    /// The network path where the clients expose their metrics.
    fn clients_metrics_path(&self, instances: Vec<Instance>) -> Vec<(Instance, String)>;

    /// The command to retrieve the metrics from the nodes.
    fn nodes_metrics_command(&self, instances: Vec<Instance>) -> Vec<(Instance, String)> {
        curl_commands(self.nodes_metrics_path(instances))
    }

    /// The command to retrieve the metrics from the clients.
    fn clients_metrics_command(&self, instances: Vec<Instance>) -> Vec<(Instance, String)> {
        curl_commands(self.clients_metrics_path(instances))
    }
}

/// Turns each metrics path into the fetch command for the same instance.
pub fn curl_commands(paths: Vec<(Instance, String)>) -> (cmds: Vec<(Instance, String)>)
    ensures
        cmds@.len() == paths@.len(),
        forall|i: int|
            0 <= i < paths@.len() ==> #[trigger] cmds@[i].0 == paths@[i].0 && cmds@[i].1@ == "curl "@
                + paths@[i].1@,
{
    let mut cmds: Vec<(Instance, String)> = Vec::new();
    let mut i: usize = 0;
    while i < paths.len()
        invariant
            i <= paths@.len(),
            cmds@.len() == i,
            forall|j: int|
                0 <= j < i ==> #[trigger] cmds@[j].0 == paths@[j].0 && cmds@[j].1@ == "curl "@
                    + paths@[j].1@,
        decreases paths@.len() - i,
    {
        let instance = paths[i].0;
        let mut command = "curl ".to_owned();
        command.append(paths[i].1.as_str());
        cmds.push((instance, command));
        i = i + 1;
    }
    cmds
}

} // verus!
