use vstd::prelude::*;
use vstd::string::*;

use crate::cluster_label::{label_text, lemma_label_text_unique, ClusterLabel};
use crate::time_span::{
    in_parser_range, number_and_unit, number_and_unit_seconds, span_of, TimeSpan,
};

verus! {

/// The label that a cluster gets when none is given: docker network label
/// `$prefix.name = $name`, with an empty prefix and the name `cluster`.
pub const DEFAULT_CLUSTER_LABEL: &'static str = ".cluster";

/// Stop and delete all components.
pub struct StopOptions {
    /// Label for the cluster, in the form of "prefix.name".
    pub cluster_label: ClusterLabel,
}

/// List all running components.
pub struct ListOptions {
    /// Simple list without using the docker executable.
    pub no_docker: bool,
    /// Format the docker output.
    pub format: Option<String>,
    /// Label for the cluster.
    pub cluster_label: ClusterLabel,
}

/// Create and start all components.
#[derive(Clone)]
pub struct StartOptions {
    /// The control plane agents to run, by name ("" for none).
    pub agents: Vec<String>,
    /// Kubernetes config file if using operators.
    pub kube_config: Option<String>,
    /// Base image for the binary components (eg: alpine:latest).
    pub base_image: Option<String>,
    /// Use the jaegertracing service.
    pub jaeger: bool,
    /// Use the elasticsearch service.
    pub elastic: bool,
    /// Use the kibana service.
    pub kibana: bool,
    /// Disable the REST server.
    pub no_rest: bool,
    /// Number of mayastor instances.
    pub mayastors: u32,
    /// Cargo build each component before deploying.
    pub build: bool,
    /// Cargo build the workspace before deploying.
    pub build_all: bool,
    /// Use a dns resolver for the cluster.
    pub dns: bool,
    /// Show information from the cluster after creation.
    pub show_info: bool,
    /// Label of the cluster.
    pub cluster_label: ClusterLabel,
    /// Disable the etcd service.
    pub no_etcd: bool,
    /// Disable the nats service.
    pub no_nats: bool,
    /// Period at which the registry updates its cache of all resources.
    pub cache_period: Option<TimeSpan>,
    /// Override of the node's deadline for the core agent.
    pub node_deadline: Option<TimeSpan>,
    /// Override of the node's request timeout.
    pub node_req_timeout: Option<TimeSpan>,
    /// Override of the node's connection timeout.
    pub node_conn_timeout: Option<TimeSpan>,
    /// Override of the core agent's store operation timeout.
    pub store_timeout: Option<TimeSpan>,
    /// Override of the core agent's reconcile period.
    pub reconcile_period: Option<TimeSpan>,
    /// Override of the core agent's reconcile idle period.
    pub reconcile_idle_period: Option<TimeSpan>,
    /// Time to wait for all containers to start.
    pub wait_timeout: Option<TimeSpan>,
    /// Don't stop or remove existing containers of the same cluster.
    pub reuse_cluster: bool,
}

impl Default for StartOptions {
    fn default() -> (r: Self)
        ensures
            r.agents@.len() == 0,
            r.kube_config is None,
            r.base_image is None,
            !r.jaeger && !r.elastic && !r.kibana && !r.no_rest,
            r.mayastors == 0,
            !r.build && !r.build_all && !r.dns && !r.show_info,
            r.cluster_label.prefix_text().len() == 0,
            r.cluster_label.name_text().len() == 0,
            !r.no_etcd && !r.no_nats,
            r.cache_period is None,
            r.node_deadline is None,
            r.node_req_timeout is None,
            r.node_conn_timeout is None,
            r.store_timeout is None,
            r.reconcile_period is None,
            r.reconcile_idle_period is None,
            r.wait_timeout is None,
            !r.reuse_cluster,
    {
        StartOptions {
            agents: Vec::new(),
            kube_config: None,
            base_image: None,
            jaeger: false,
            elastic: false,
            kibana: false,
            no_rest: false,
            mayastors: 0,
            build: false,
            build_all: false,
            dns: false,
            show_info: false,
            cluster_label: ClusterLabel::default(),
            no_etcd: false,
            no_nats: false,
            cache_period: None,
            node_deadline: None,
            node_req_timeout: None,
            node_conn_timeout: None,
            store_timeout: None,
            reconcile_period: None,
            reconcile_idle_period: None,
            wait_timeout: None,
            reuse_cluster: false,
        }
    }
}

impl Default for ListOptions {
    fn default() -> (r: Self)
        ensures
            !r.no_docker,
            r.format is None,
            r.cluster_label.prefix_text().len() == 0,
            r.cluster_label.name_text().len() == 0,
    {
        ListOptions { no_docker: false, format: None, cluster_label: ClusterLabel::default() }
    }
}

impl ListOptions {
    /// The arguments of the `docker` command that lists the cluster's
    /// containers: `ps -a --filter label=<filter>`, then
    /// `--format <format>` where a format is given.
    pub open spec fn docker_args_text(self, default_prefix: Seq<char>) -> Seq<Seq<char>> {
        let base = seq![
            "ps"@,
            "-a"@,
            "--filter"@,
            "label="@ + self.cluster_label.filter_text(default_prefix),
        ];
        match self.format {
            Some(f) => base + seq!["--format"@, f@],
            None => base,
        }
    }

    /// Builds the arguments of the `docker` command that lists the cluster's
    /// containers (see `docker_args_text`).
    pub fn docker_args(&self, default_prefix: &str) -> (r: Vec<String>)
        ensures
            r@.map_values(|a: String| a@) == self.docker_args_text(default_prefix@),
            r@.len() == if self.format is Some {
                6int
            } else {
                4int
            },
            r@[0]@ == "ps"@,
            r@[1]@ == "-a"@,
            r@[2]@ == "--filter"@,
            r@[3]@ == "label="@ + self.cluster_label.filter_text(default_prefix@),
            self.format matches Some(f) ==> r@[4]@ == "--format"@ && r@[5]@ == f@,
    {
        let mut args: Vec<String> = Vec::new();
        args.push(String::from_str("ps"));
        args.push(String::from_str("-a"));
        args.push(String::from_str("--filter"));
        let filter = self.cluster_label.filter(default_prefix);
        args.push(String::from_str("label=").concat(filter.as_str()));
        match &self.format {
            Some(f) => {
                args.push(String::from_str("--format"));
                args.push(f.clone());
            },
            None => {},
        }
        assert(args@.map_values(|a: String| a@) =~= self.docker_args_text(default_prefix@));
        args
    }
}

/// The docker listing filters on the label's filter with the given default
/// prefix, `label=<prefix>.name=<name>`, whether or not a format is given;
/// a format only adds `--format <format>` after the filter.
pub proof fn law_docker_args_filter(l: ListOptions, default_prefix: Seq<char>)
    ensures
        l.docker_args_text(default_prefix).len() >= 4,
        l.docker_args_text(default_prefix)[3] == "label="@ + l.cluster_label.effective_prefix(
            default_prefix,
        ) + ".name="@ + l.cluster_label.name_text(),
        l.docker_args_text(default_prefix).take(4) == seq![
            "ps"@,
            "-a"@,
            "--filter"@,
            "label="@ + l.cluster_label.filter_text(default_prefix),
        ],
        l.format is None ==> l.docker_args_text(default_prefix).len() == 4,
        l.format matches Some(f) ==> l.docker_args_text(default_prefix).skip(4) == seq![
            "--format"@,
            f@,
        ],
{
    let args = l.docker_args_text(default_prefix);
    assert(args.take(4) =~= seq![
        "ps"@,
        "-a"@,
        "--filter"@,
        "label="@ + l.cluster_label.filter_text(default_prefix),
    ]);
    if let Some(f) = l.format {
        assert(args.skip(4) =~= seq!["--format"@, f@]);
    }
}

impl StartOptions {
    /// Uses the named control plane agents.
    pub fn with_agents(self, agents: Vec<&str>) -> (r: Self)
        ensures
            r.agents@.len() == agents@.len(),
            forall|i: int| 0 <= i < agents@.len() ==> #[trigger] r.agents@[i]@ == agents@[i]@,
            r == (StartOptions { agents: r.agents, ..self }),
    {
        let mut names: Vec<String> = Vec::new();
        let mut i: usize = 0;
        while i < agents.len()
            invariant
                i <= agents@.len(),
                names@.len() == i,
                forall|j: int| 0 <= j < i ==> #[trigger] names@[j]@ == agents@[j]@,
            decreases agents@.len() - i,
        {
            names.push(String::from_str(agents[i]));
            i = i + 1;
        }
        StartOptions { agents: names, ..self }
    }

    /// Sets the registry's cache period, written in `humantime`'s notation
    /// within the parser's range (`in_parser_range`).
    pub fn with_cache_period(self, period: &str) -> (r: Self)
        requires
            in_parser_range(period@),
            span_of(period@) is Some,
        ensures
            r == (StartOptions { cache_period: span_of(period@), ..self }),
            forall|k: int|
                #[trigger] number_and_unit(period@, k) && number_and_unit_seconds(period@, k)
                    <= u64::MAX ==> r.cache_period == Some(
                    TimeSpan { secs: number_and_unit_seconds(period@, k) as u64, nanos: 0 },
                ),
    {
        let span = TimeSpan::parse(period);
        StartOptions { cache_period: span, ..self }
    }

    /// Sets the registry's cache period where `period` is a duration in
    /// `humantime`'s notation; `None` where it is not. The text must lie in
    /// the parser's range (`in_parser_range`).
    pub fn try_with_cache_period(self, period: &str) -> (r: Option<Self>)
        requires
            in_parser_range(period@),
        ensures
            r is Some <==> span_of(period@) is Some,
            r matches Some(o) ==> o == (StartOptions { cache_period: span_of(period@), ..self }),
    {
        if TimeSpan::parse(period).is_some() {
            Some(self.with_cache_period(period))
        } else {
            None
        }
    }

    /// Sets the node's deadline, written in `humantime`'s notation within
    /// the parser's range (`in_parser_range`).
    pub fn with_node_deadline(self, deadline: &str) -> (r: Self)
        requires
            in_parser_range(deadline@),
            span_of(deadline@) is Some,
        ensures
            r == (StartOptions { node_deadline: span_of(deadline@), ..self }),
            forall|k: int|
                #[trigger] number_and_unit(deadline@, k) && number_and_unit_seconds(deadline@, k)
                    <= u64::MAX ==> r.node_deadline == Some(
                    TimeSpan { secs: number_and_unit_seconds(deadline@, k) as u64, nanos: 0 },
                ),
    {
        let span = TimeSpan::parse(deadline);
        StartOptions { node_deadline: span, ..self }
    }

    /// Sets the node's deadline where `deadline` is a duration in
    /// `humantime`'s notation; `None` where it is not. The text must lie in
    /// the parser's range (`in_parser_range`).
    pub fn try_with_node_deadline(self, deadline: &str) -> (r: Option<Self>)
        requires
            in_parser_range(deadline@),
        ensures
            r is Some <==> span_of(deadline@) is Some,
            r matches Some(o) ==> o == (StartOptions { node_deadline: span_of(deadline@), ..self }),
    {
        if TimeSpan::parse(deadline).is_some() {
            Some(self.with_node_deadline(deadline))
        } else {
            None
        }
    }

    /// Sets the core agent's store operation timeout.
    pub fn with_store_timeout(self, timeout: TimeSpan) -> (r: Self)
        requires
            timeout.wf(),
        ensures
            r == (StartOptions { store_timeout: Some(timeout), ..self }),
    {
        StartOptions { store_timeout: Some(timeout), ..self }
    }

    /// Sets the core agent's reconcile periods, when busy and when idle.
    pub fn with_reconcile_period(self, busy: TimeSpan, idle: TimeSpan) -> (r: Self)
        requires
            busy.wf(),
            idle.wf(),
        ensures
            r == (StartOptions {
                reconcile_period: Some(busy),
                reconcile_idle_period: Some(idle),
                ..self
            }),
    {
        StartOptions { reconcile_period: Some(busy), reconcile_idle_period: Some(idle), ..self }
    }

    /// Sets the node's connection and request timeouts.
    pub fn with_node_timeouts(self, connect: TimeSpan, request: TimeSpan) -> (r: Self)
        requires
            connect.wf(),
            request.wf(),
        ensures
            r == (StartOptions {
                node_conn_timeout: Some(connect),
                node_req_timeout: Some(request),
                ..self
            }),
    {
        StartOptions { node_conn_timeout: Some(connect), node_req_timeout: Some(request), ..self }
    }

    /// Enables or disables the REST server.
    pub fn with_rest(self, enabled: bool) -> (r: Self)
        ensures
            r == (StartOptions { no_rest: !enabled, ..self }),
    {
        StartOptions { no_rest: !enabled, ..self }
    }

    /// Enables or disables the jaegertracing service.
    pub fn with_jaeger(self, jaeger: bool) -> (r: Self)
        ensures
            r == (StartOptions { jaeger, ..self }),
    {
        StartOptions { jaeger, ..self }
    }

    /// Builds each component before deploying, or not.
    pub fn with_build(self, build: bool) -> (r: Self)
        ensures
            r == (StartOptions { build, ..self }),
    {
        StartOptions { build, ..self }
    }

    /// Builds the workspace before deploying, or not.
    pub fn with_build_all(self, build: bool) -> (r: Self)
        ensures
            r == (StartOptions { build_all: build, ..self }),
    {
        StartOptions { build_all: build, ..self }
    }

    /// Sets the number of mayastor instances.
    pub fn with_mayastors(self, mayastors: u32) -> (r: Self)
        ensures
            r == (StartOptions { mayastors, ..self }),
    {
        StartOptions { mayastors, ..self }
    }

    /// Shows information from the cluster after creation, or not.
    pub fn with_show_info(self, show_info: bool) -> (r: Self)
        ensures
            r == (StartOptions { show_info, ..self }),
    {
        StartOptions { show_info, ..self }
    }

    /// Names the cluster: its label becomes `.<cluster_name>`, with an empty
    /// prefix. The name may not hold a dot.
    pub fn with_cluster_name(self, cluster_name: &str) -> (r: Self)
        requires
            !cluster_name@.contains('.'),
        ensures
            r.cluster_label.prefix_text() == Seq::<char>::empty(),
            r.cluster_label.name_text() == cluster_name@,
            r == (StartOptions { cluster_label: r.cluster_label, ..self }),
    {
        let text = String::from_str(".").concat(cluster_name);
        proof {
            reveal_strlit(".");
            assert(text@ =~= label_text(Seq::<char>::empty(), cluster_name@));
            lemma_label_text_unique(
                Seq::<char>::empty(),
                cluster_name@,
                Seq::<char>::empty(),
                cluster_name@,
            );
        }
        match ClusterLabel::from_str(text.as_str()) {
            Ok(label) => {
                proof {
                    lemma_label_text_unique(
                        label.prefix_text(),
                        label.name_text(),
                        Seq::<char>::empty(),
                        cluster_name@,
                    );
                }
                StartOptions { cluster_label: label, ..self }
            },
            Err(_) => {
                assert(false);
                self
            },
        }
    }

    /// Uses a base image for the binary components, or none.
    pub fn with_base_image(self, base_image: Option<String>) -> (r: Self)
        ensures
            r == (StartOptions { base_image, ..self }),
    {
        StartOptions { base_image, ..self }
    }

    /// The prune, reuse-if-running and reuse-if-stopped switches that the
    /// cluster is built with: existing containers are pruned unless the
    /// cluster is reused, and reused when it is.
    pub fn prune_reuse(&self) -> (r: (bool, bool, bool))
        ensures
            r == (!self.reuse_cluster, self.reuse_cluster, self.reuse_cluster),
    {
        (!self.reuse_cluster, self.reuse_cluster, self.reuse_cluster)
    }

    /// The listing to show once the cluster has started: a simple listing of
    /// the cluster's components where `show_info` is set, else none.
    pub fn info_lister(&self) -> (r: Option<ListOptions>)
        ensures
            r is Some <==> self.show_info,
            r matches Some(l) ==> {
                &&& !l.no_docker
                &&& l.format is None
                &&& l.cluster_label == self.cluster_label
            },
    {
        if self.show_info {
            Some(ListOptions { cluster_label: self.cluster_label.clone(), ..ListOptions::default() })
        } else {
            None
        }
    }
}

} // verus!
