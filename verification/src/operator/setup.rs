//! A test cluster: its identity, its labels and its bounded waits.

use vstd::prelude::*;
use vstd::string::*;
use crate::test::kube::{default_timeouts, KubeClient};
use crate::test::random::random_number;
use crate::test::resources::{
    is_moment_before, moment_before, Object, ObjectMeta, Pod, Timestamp,
};
use crate::test::text::{
    decimal, decimal_text, lemma_decimal_shape, push_decimal, push_signed_decimal, signed_decimal,
    texts,
};
use crate::test::text_map::{put, selector_text, text_equal, TextMap};

verus! {

/// The longest name that Kubernetes accepts for a resource.
pub const MAX_INSTANCE_NAME_LEN: usize = 63;

/// The part of `base` that is kept in front of `suffix`: all of it while the
/// whole name stays within the limit, else its first characters, one less
/// than would fit.
pub open spec fn kept_base(base: Seq<char>, suffix: nat) -> Seq<char> {
    let max_len = MAX_INSTANCE_NAME_LEN - decimal(suffix).len() - 1;
    if base.len() > max_len {
        base.subrange(0, max_len - 1)
    } else {
        base
    }
}

/// The name of an instance: the kept part of `base`, a hyphen, and `suffix`
/// in decimal notation.
pub open spec fn instance_name_for(base: Seq<char>, suffix: nat) -> Seq<char> {
    kept_base(base, suffix) + seq!['-'] + decimal(suffix)
}

/// An instance name never exceeds the limit of 63 characters, whatever the
/// base name and the suffix. It ends with the hyphen and the whole suffix, so
/// no truncation removes the suffix; what stands before is the beginning of
/// the base name, and the whole base name where that fits.
pub proof fn lemma_instance_name(base: Seq<char>, suffix: u32)
    ensures
        instance_name_for(base, suffix as nat).len() <= MAX_INSTANCE_NAME_LEN,
        1 <= decimal(suffix as nat).len() <= 10,
        kept_base(base, suffix as nat).is_prefix_of(base),
        kept_base(base, suffix as nat).is_prefix_of(instance_name_for(base, suffix as nat)),
        (seq!['-'] + decimal(suffix as nat)).is_suffix_of(instance_name_for(base, suffix as nat)),
        base.len() + 1 + decimal(suffix as nat).len() <= MAX_INSTANCE_NAME_LEN ==> instance_name_for(
            base,
            suffix as nat,
        ) == base + seq!['-'] + decimal(suffix as nat),
{
    lemma_decimal_shape(suffix as nat);
}

/// Some reoccurring common test cluster options.
#[derive(Debug, Eq, PartialEq)]
pub struct TestClusterOptions {
    app_name: String,
    instance_name: String,
}

/// The options as plain texts.
pub struct TestClusterOptionsView {
    pub app_name: Seq<char>,
    pub instance_name: Seq<char>,
}

impl View for TestClusterOptions {
    type V = TestClusterOptionsView;

    closed spec fn view(&self) -> TestClusterOptionsView {
        TestClusterOptionsView { app_name: self.app_name@, instance_name: self.instance_name@ }
    }
}

impl TestClusterOptions {
    /// Options for the application `app_name`, with an instance name made of
    /// `instance_name` and a random suffix.
    pub fn new(app_name: &str, instance_name: &str) -> (options: Self)
        ensures
            options@.app_name == app_name@,
            exists|suffix: u32|
                options@.instance_name == #[trigger] instance_name_for(
                    instance_name@,
                    suffix as nat,
                ),
            options@.instance_name.len() <= MAX_INSTANCE_NAME_LEN,
    {
        let suffix = random_number();
        Self::with_suffix(app_name, instance_name, suffix)
    }

    /// Options for the application `app_name`, with an instance name made of
    /// `instance_name` and the given suffix. The base name is cut where the
    /// whole would exceed 63 characters; the suffix is kept whole.
    pub fn with_suffix(app_name: &str, instance_name: &str, suffix: u32) -> (options: Self)
        ensures
            options@.app_name == app_name@,
            options@.instance_name == instance_name_for(instance_name@, suffix as nat),
            options@.instance_name.len() <= MAX_INSTANCE_NAME_LEN,
    {
        let uid = decimal_text(suffix as u64);
        proof {
            lemma_instance_name(instance_name@, suffix);
        }
        let max_len = MAX_INSTANCE_NAME_LEN - uid.as_str().unicode_len() - 1;
        let adapted_name = if instance_name.unicode_len() > max_len {
            instance_name.substring_char(0, max_len - 1)
        } else {
            instance_name
        };
        let mut name = String::from_str(adapted_name);
        name.append("-");
        name.append(uid.as_str());
        proof {
            reveal_strlit("-");
        }
        TestClusterOptions { app_name: String::from_str(app_name), instance_name: name }
    }

    /// The name of the application.
    pub fn app_name(&self) -> (name: &str)
        ensures
            name@ == self@.app_name,
    {
        self.app_name.as_str()
    }

    /// The name of the instance.
    pub fn instance_name(&self) -> (name: &str)
        ensures
            name@ == self@.instance_name,
    {
        self.instance_name.as_str()
    }
}

/// Some reoccurring common test cluster timeouts, in whole seconds.
#[derive(Clone, Copy, Debug, Eq, PartialEq)]
pub struct TestClusterTimeouts {
    pub cluster_ready: u64,
    pub pods_terminated: u64,
}

/// Some reoccurring common labels: the keys under which a resource names its
/// application, its instance and its version.
#[derive(Debug, Eq, PartialEq)]
pub struct TestClusterLabels {
    pub app: String,
    pub instance: String,
    pub version: String,
}

impl TestClusterLabels {
    /// The keys of the labels for the application, the instance and the version.
    pub fn new(app: &str, instance: &str, version: &str) -> (labels: Self)
        ensures
            labels.app@ == app@,
            labels.instance@ == instance@,
            labels.version@ == version@,
    {
        TestClusterLabels {
            app: String::from_str(app),
            instance: String::from_str(instance),
            version: String::from_str(version),
        }
    }
}

impl Clone for TestClusterOptions {
    fn clone(&self) -> (copy: Self)
        ensures
            copy@ == self@,
    {
        TestClusterOptions {
            app_name: self.app_name.clone(),
            instance_name: self.instance_name.clone(),
        }
    }
}

impl Clone for TestClusterLabels {
    fn clone(&self) -> (copy: Self)
        ensures
            copy == *self,
    {
        TestClusterLabels {
            app: self.app.clone(),
            instance: self.instance.clone(),
            version: self.version.clone(),
        }
    }
}

/// The label selector by which nodes are listed where the caller names none.
pub const DEFAULT_NODE_SELECTOR: &'static str = "kubernetes.io/arch=stackable-linux";

/// The seconds that the operator is given to react to an applied resource.
pub const GRACE_PERIOD_SECS: u64 = 2;

/// Where a cluster stands in its life.
#[derive(Clone, Copy, Debug, PartialEq, Eq)]
pub enum Lifecycle {
    /// No cluster was applied yet.
    Unset,
    /// The cluster was applied; the operator has not been seen to react.
    Applied,
    /// The expected pods were counted and each of them was ready.
    Ready,
    /// The deletion of the cluster was asked for; its pods may remain.
    Deleting,
    /// The cluster was deleted and none of its pods remains.
    Deleted,
}

/// A wrapper to avoid passing in client or cluster everywhere.
pub struct TestCluster<T> {
    /// The kind of the cluster resource, for the messages.
    pub kind: String,
    pub client: KubeClient,
    pub cluster: Option<T>,
    pub options: TestClusterOptions,
    pub labels: TestClusterLabels,
    pub timeouts: TestClusterTimeouts,
    pub lifecycle: Lifecycle,
}

/// The entries of the labels that the caller adds to a selector; none where
/// the caller adds no labels.
pub open spec fn added_entries(additional_labels: Option<TextMap>) -> Seq<(Seq<char>, Seq<char>)> {
    match additional_labels {
        Some(labels) => labels.entries(),
        None => Seq::empty(),
    }
}

/// The labels that the caller adds to a selector, as a map.
pub open spec fn added_labels(additional_labels: Option<TextMap>) -> Map<Seq<char>, Seq<char>> {
    match additional_labels {
        Some(labels) => labels@,
        None => Map::empty(),
    }
}

/// A message with the kind and the name of a cluster in front.
pub open spec fn log_text(kind: Seq<char>, name: Seq<char>, message: Seq<char>) -> Seq<char> {
    "["@ + kind + "/"@ + name + "] "@ + message
}

impl<T> TestCluster<T> {
    /// The cluster holds a resource from the moment it is applied until its
    /// pods are known to be gone, and at no other time.
    pub open spec fn well_formed(&self) -> bool {
        self.cluster is None <==> (self.lifecycle == Lifecycle::Unset || self.lifecycle
            == Lifecycle::Deleted)
    }

    /// The labels by which the resources of this cluster are selected: the
    /// additional labels, with the application and the instance of this
    /// cluster set on top of them.
    pub open spec fn selection(&self, additional_labels: Option<TextMap>) -> Map<
        Seq<char>,
        Seq<char>,
    > {
        added_labels(additional_labels).insert(self.labels.app@, self.options@.app_name).insert(
            self.labels.instance@,
            self.options@.instance_name,
        )
    }

    /// The entries of [`Self::selection`] in the order of their keys.
    pub open spec fn selection_entries(&self, additional_labels: Option<TextMap>) -> Seq<
        (Seq<char>, Seq<char>),
    > {
        put(
            put(added_entries(additional_labels), self.labels.app@, self.options@.app_name),
            self.labels.instance@,
            self.options@.instance_name,
        )
    }

    /// Whether a resource belongs to the selection: its labels hold every
    /// label of the selection, with the same value.
    pub open spec fn selects(&self, additional_labels: Option<TextMap>, resource: ObjectMeta) -> bool {
        self.selection(additional_labels).submap_of(resource.labels_view())
    }

    /// This sets up a cluster of resources of the given kind that was not
    /// applied yet, with a client for the namespace "default"; it should be
    /// done at the start of every test.
    pub fn new(
        kind: &str,
        options: &TestClusterOptions,
        labels: &TestClusterLabels,
        timeouts: &TestClusterTimeouts,
    ) -> (cluster: Self)
        ensures
            cluster.kind@ == kind@,
            cluster.cluster is None,
            cluster.lifecycle == Lifecycle::Unset,
            cluster.options@ == options@,
            cluster.labels == *labels,
            cluster.timeouts == *timeouts,
            cluster.client.namespace@ == "default"@,
            cluster.client.timeouts == default_timeouts(),
            cluster.well_formed(),
    {
        TestCluster {
            kind: String::from_str(kind),
            client: KubeClient::new(),
            cluster: None,
            options: options.clone(),
            labels: labels.clone(),
            timeouts: *timeouts,
            lifecycle: Lifecycle::Unset,
        }
    }

    /// Return the cluster / instance name
    pub fn name(&self) -> (name: &str)
        ensures
            name@ == self.options@.instance_name,
    {
        self.options.instance_name()
    }

    /// A message with cluster kind and cluster name in the beginning.
    pub fn log(&self, message: &str) -> (line: String)
        ensures
            line@ == log_text(self.kind@, self.options@.instance_name, message@),
    {
        let mut line = String::from_str("[");
        line.append(self.kind.as_str());
        line.append("/");
        line.append(self.name());
        line.append("] ");
        line.append(message);
        line
    }

    /// The labels by which the resources of this cluster are selected.
    pub fn selection_labels(&self, additional_labels: Option<TextMap>) -> (labels: TextMap)
        ensures
            labels@ == self.selection(additional_labels),
            labels.entries() == self.selection_entries(additional_labels),
    {
        let mut labels = match additional_labels {
            Some(labels) => labels,
            None => TextMap::new(),
        };
        labels.insert(self.labels.app.clone(), String::from_str(self.options.app_name()));
        labels.insert(self.labels.instance.clone(), String::from_str(self.options.instance_name()));
        labels
    }

    /// The label selector by which the resources of this cluster are
    /// listed: `key=value` for each label of the selection, in the order of
    /// the keys, separated by commas.
    pub fn list_selector(&self, additional_labels: Option<TextMap>) -> (selector: String)
        ensures
            selector@ == selector_text(self.selection_entries(additional_labels)),
    {
        self.selection_labels(additional_labels).to_selector()
    }

    /// List resources belonging to the cluster: of `resources`, those that
    /// the selection matches, in their order. Additional labels to filter
    /// or limit the selector may be passed via `additional_labels`.
    pub fn list<R>(&self, resources: Vec<Object<R>>, additional_labels: Option<TextMap>) -> (listed:
        Vec<Object<R>>)
        ensures
            listed@ == resources@.filter(
                |each: Object<R>| self.selects(additional_labels, each.metadata),
            ),
    {
        let ghost chosen = |each: Object<R>| self.selects(additional_labels, each.metadata);
        let ghost all = resources@;
        let selection = self.selection_labels(additional_labels);
        let unlabelled = TextMap::new();
        let mut rest = resources;
        let mut listed: Vec<Object<R>> = Vec::new();
        let ghost mut done: int = 0;
        while rest.len() > 0
            invariant
                0 <= done <= all.len(),
                rest@ == all.subrange(done, all.len() as int),
                listed@ == all.subrange(0, done).filter(chosen),
                selection@ == self.selection(additional_labels),
                unlabelled@ == Map::<Seq<char>, Seq<char>>::empty(),
                chosen == |each: Object<R>| self.selects(additional_labels, each.metadata),
            decreases rest.len(),
        {
            let resource = rest.remove(0);
            let matches = match &resource.metadata.labels {
                Some(labels) => selection.is_subset_of(labels),
                None => selection.is_subset_of(&unlabelled),
            };
            proof {
                let longer = all.subrange(0, done + 1);
                assert(longer.drop_last() =~= all.subrange(0, done));
                reveal(Seq::filter);
                done = done + 1;
            }
            if matches {
                listed.push(resource);
            }
        }
        assert(all.subrange(0, done) =~= all);
        listed
    }

    /// The label selector by which the nodes are listed that have an agent
    /// running: the given one, or `kubernetes.io/arch=stackable-linux`.
    pub fn list_nodes<'a>(&self, selector: Option<&'a str>) -> (label_selector: &'a str)
        ensures
            label_selector@ == match selector {
                Some(given) => given@,
                None => DEFAULT_NODE_SELECTOR@,
            },
    {
        match selector {
            Some(given) => given,
            None => DEFAULT_NODE_SELECTOR,
        }
    }
}

/// What went wrong with a cluster.
#[derive(Clone, Copy, Debug, PartialEq, Eq)]
pub enum ErrorKind {
    /// A pod was not created after the given point in time.
    OlderTimestamp,
    /// A pod has another version than the expected one.
    WrongVersion,
    /// A pod has no version label.
    NoVersion,
    /// The expected number of pods did not show up in time.
    NotReady,
    /// A pod of the expected number did not become ready in time.
    PodNotReady,
    /// Pods remained when the time for their termination was over.
    NotTerminated,
    /// An event came that cannot follow the last action.
    OutOfOrder,
}

/// An error of a cluster: what went wrong, and a message for the test's output.
#[derive(Clone, Debug, PartialEq, Eq)]
pub struct ClusterError {
    pub kind: ErrorKind,
    pub message: String,
}

/// An optional timestamp as text.
pub open spec fn moment_text(moment: Option<Timestamp>) -> Seq<char> {
    match moment {
        Some(timestamp) => "Some("@ + signed_decimal(timestamp.secs as int) + "s+"@ + decimal(
            timestamp.nanos as nat,
        ) + "ns)"@,
        None => "None"@,
    }
}

/// The message about a pod that was not created after the given point in time.
pub open spec fn older_timestamp_text(
    pod: Seq<char>,
    created: Option<Timestamp>,
    cutoff: Option<Timestamp>,
) -> Seq<char> {
    "Pod ["@ + pod + "] has an older timestamp ["@ + moment_text(created)
        + "] than the provided timestamp ["@ + moment_text(cutoff)
        + "]. This should not be happening!"@
}

/// The message about a pod of another version than the expected one.
pub open spec fn wrong_version_text(pod: Seq<char>, found: Seq<char>, expected: Seq<char>) -> Seq<
    char,
> {
    "Pod ["@ + pod + "] has version ["@ + found + "] but should have version ["@ + expected
        + "]. This should not happen!"@
}

/// The message about a pod without a version label.
pub open spec fn no_version_text(pod: Seq<char>, label: Seq<char>, expected: Seq<char>) -> Seq<char> {
    "Pod ["@ + pod + "] has no version label ["@ + label + "]. Expected version ["@ + expected
        + "]. This should not happen!"@
}

/// The position of the first item that fails `passes`, or the length where
/// all pass.
pub open spec fn first_failing<A>(items: Seq<A>, passes: spec_fn(A) -> bool) -> int
    decreases items.len(),
{
    if items.len() == 0 || !passes(items[0]) {
        0
    } else {
        1 + first_failing(items.drop_first(), passes)
    }
}

/// The first failing item fails, and every item before it passes.
pub proof fn lemma_first_failing<A>(items: Seq<A>, passes: spec_fn(A) -> bool)
    ensures
        0 <= first_failing(items, passes) <= items.len(),
        first_failing(items, passes) < items.len() ==> !passes(
            items[first_failing(items, passes)],
        ),
        forall|i: int| 0 <= i < first_failing(items, passes) ==> passes(#[trigger] items[i]),
    decreases items.len(),
{
    if items.len() > 0 && passes(items[0]) {
        let rest = items.drop_first();
        lemma_first_failing(rest, passes);
        assert forall|i: int| 0 <= i < first_failing(items, passes) implies passes(
            #[trigger] items[i],
        ) by {
            if i > 0 {
                assert(items[i] == rest[i - 1]);
            }
        }
    }
}

/// The first failing item is the one before which all pass and which fails.
pub proof fn lemma_first_failing_is<A>(items: Seq<A>, passes: spec_fn(A) -> bool, at: int)
    requires
        0 <= at <= items.len(),
        forall|i: int| 0 <= i < at ==> passes(#[trigger] items[i]),
        at < items.len() ==> !passes(items[at]),
    ensures
        first_failing(items, passes) == at,
{
    lemma_first_failing(items, passes);
}

/// Appends an optional timestamp as text to `out`.
fn push_moment(out: &mut String, moment: &Option<Timestamp>)
    ensures
        final(out)@ == old(out)@ + moment_text(*moment),
{
    match moment {
        Some(timestamp) => {
            out.append("Some(");
            push_signed_decimal(out, timestamp.secs);
            out.append("s+");
            push_decimal(out, timestamp.nanos as u64);
            out.append("ns)");
        },
        None => {
            out.append("None");
        },
    }
}

/// The pods that were created strictly after `cutoff`.
pub open spec fn created_after(cutoff: Option<Timestamp>) -> spec_fn(Pod) -> bool {
    |pod: Pod| moment_before(cutoff, pod.metadata.creation_timestamp)
}

/// The pods whose label `label` says `version`.
pub open spec fn has_version(label: Seq<char>, version: Seq<char>) -> spec_fn(Pod) -> bool {
    |pod: Pod|
        pod.metadata.labels_view().contains_key(label) && pod.metadata.labels_view()[label]
            == version
}

impl<T> TestCluster<T> {
    /// Check that every pod was created strictly after the provided
    /// timestamp; a pod without a creation timestamp was not. The error
    /// names the first pod that was not.
    /// Maybe used with testing commands like Restart etc.
    pub fn check_pod_creation_timestamp(
        &self,
        pods: &Vec<Pod>,
        creation_timestamp: &Option<Timestamp>,
    ) -> (result: Result<(), ClusterError>)
        requires
            first_failing(pods@, created_after(*creation_timestamp)) < pods.len() ==> pods[first_failing(
                pods@,
                created_after(*creation_timestamp),
            )].metadata.name is Some,
        ensures
            ({
                let at = first_failing(pods@, created_after(*creation_timestamp));
                if at == pods.len() {
                    result is Ok
                } else {
                    result matches Err(error) && error.kind == ErrorKind::OlderTimestamp
                        && error.message@ == log_text(
                        self.kind@,
                        self.options@.instance_name,
                        older_timestamp_text(
                            pods[at].metadata.name->0@,
                            pods[at].metadata.creation_timestamp,
                            *creation_timestamp,
                        ),
                    )
                }
            }),
    {
        let ghost passes = created_after(*creation_timestamp);
        proof {
            lemma_first_failing(pods@, passes);
        }
        let mut i: usize = 0;
        while i < pods.len()
            invariant
                i <= pods.len(),
                passes == created_after(*creation_timestamp),
                first_failing(pods@, passes) < pods.len() ==> pods@[first_failing(
                    pods@,
                    passes,
                )].metadata.name is Some,
                forall|k: int| 0 <= k < i ==> passes(#[trigger] pods@[k]),
            decreases pods.len() - i,
        {
            let pod = &pods[i];
            if !is_moment_before(creation_timestamp, &pod.metadata.creation_timestamp) {
                proof {
                    lemma_first_failing_is(pods@, passes, i as int);
                }
                let mut text = String::from_str("Pod [");
                match &pod.metadata.name {
                    Some(name) => text.append(name.as_str()),
                    None => {},
                }
                text.append("] has an older timestamp [");
                push_moment(&mut text, &pod.metadata.creation_timestamp);
                text.append("] than the provided timestamp [");
                push_moment(&mut text, creation_timestamp);
                text.append("]. This should not be happening!");
                return Err(
                    ClusterError {
                        kind: ErrorKind::OlderTimestamp,
                        message: self.log(text.as_str()),
                    },
                );
            }
            i += 1;
        }
        proof {
            lemma_first_failing_is(pods@, passes, pods.len() as int);
        }
        Ok(())
    }

    /// Check if all pods have the provided version parameter in the
    /// version label. The error names the first pod that has another
    /// version, or no version label.
    /// May be used to check the for the correct version after cluster updates.
    pub fn check_pod_version(&self, pods: &Vec<Pod>, version: &str) -> (result: Result<
        (),
        ClusterError,
    >)
        requires
            first_failing(pods@, has_version(self.labels.version@, version@)) < pods.len()
                ==> pods[first_failing(
                pods@,
                has_version(self.labels.version@, version@),
            )].metadata.name is Some,
        ensures
            ({
                let at = first_failing(pods@, has_version(self.labels.version@, version@));
                if at == pods.len() {
                    result is Ok
                } else if pods[at].metadata.labels_view().contains_key(self.labels.version@) {
                    result matches Err(error) && error.kind == ErrorKind::WrongVersion
                        && error.message@ == log_text(
                        self.kind@,
                        self.options@.instance_name,
                        wrong_version_text(
                            pods[at].metadata.name->0@,
                            pods[at].metadata.labels_view()[self.labels.version@],
                            version@,
                        ),
                    )
                } else {
                    result matches Err(error) && error.kind == ErrorKind::NoVersion
                        && error.message@ == no_version_text(
                        pods[at].metadata.name->0@,
                        self.labels.version@,
                        version@,
                    )
                }
            }),
    {
        let ghost passes = has_version(self.labels.version@, version@);
        proof {
            lemma_first_failing(pods@, passes);
        }
        let mut i: usize = 0;
        while i < pods.len()
            invariant
                i <= pods.len(),
                passes == has_version(self.labels.version@, version@),
                first_failing(pods@, passes) < pods.len() ==> pods@[first_failing(
                    pods@,
                    passes,
                )].metadata.name is Some,
                forall|k: int| 0 <= k < i ==> passes(#[trigger] pods@[k]),
            decreases pods.len() - i,
        {
            let pod = &pods[i];
            match pod.metadata.label(self.labels.version.as_str()) {
                Some(pod_version) => {
                    if !text_equal(version, pod_version.as_str()) {
                        proof {
                            lemma_first_failing_is(pods@, passes, i as int);
                        }
                        let mut text = String::from_str("Pod [");
                        match &pod.metadata.name {
                            Some(name) => text.append(name.as_str()),
                            None => {},
                        }
                        text.append("] has version [");
                        text.append(pod_version.as_str());
                        text.append("] but should have version [");
                        text.append(version);
                        text.append("]. This should not happen!");
                        return Err(
                            ClusterError {
                                kind: ErrorKind::WrongVersion,
                                message: self.log(text.as_str()),
                            },
                        );
                    }
                },
                None => {
                    proof {
                        lemma_first_failing_is(pods@, passes, i as int);
                    }
                    let mut text = String::from_str("Pod [");
                    match &pod.metadata.name {
                        Some(name) => text.append(name.as_str()),
                        None => {},
                    }
                    text.append("] has no version label [");
                    text.append(self.labels.version.as_str());
                    text.append("]. Expected version [");
                    text.append(version);
                    text.append("]. This should not happen!");
                    return Err(ClusterError { kind: ErrorKind::NoVersion, message: text });
                },
            }
            i += 1;
        }
        proof {
            lemma_first_failing_is(pods@, passes, pods.len() as int);
        }
        Ok(())
    }
}

/// The seconds between two looks at the pods while they get ready.
pub const READY_INTERVAL_SECS: u64 = 2;

/// The seconds between two looks at the pods while they terminate.
pub const TERMINATED_INTERVAL_SECS: u64 = 1;

/// The condition of a pod that makes it count as ready.
pub const READY_CONDITION: &'static str = "Ready";

/// Where a wait stands.
#[derive(Clone, Copy, Debug, PartialEq, Eq)]
pub enum WaitState {
    /// The pods are counted at intervals; `last_count` is the last count.
    Polling { last_count: Option<usize> },
    /// `count` pods were counted as expected; the first `next` of them
    /// were found ready, and the pod at position `next` is being verified.
    Verifying { count: usize, next: usize },
    /// The wait has returned.
    Finished,
}

/// What the caller reports to a wait.
#[derive(Clone, Debug, PartialEq, Eq)]
pub enum WaitEvent {
    /// The wait begins: the clock starts now.
    Begin,
    /// The clock was read: so many whole seconds have passed since the wait began.
    Clock { elapsed_secs: u64 },
    /// The pods of the cluster were listed: so many there are.
    Pods { count: usize },
    /// The sleep is over.
    Slept,
    /// The readiness of a pod was verified: it is ready, or the
    /// verification failed with this message.
    PodVerified { failure: Option<String> },
}

/// What the caller is to do next.
#[derive(Debug, PartialEq, Eq)]
pub enum WaitAction {
    /// Read the clock and report the seconds since the wait began.
    ReadClock,
    /// List the pods that this label selector matches and report their number.
    ListPods { selector: String },
    /// Sleep for so many seconds.
    Sleep { secs: u64 },
    /// Verify that the pod at this position of the last list reaches this
    /// condition.
    VerifyPod { index: usize, condition: String },
    /// The wait is over, with this result.
    Return(Result<(), ClusterError>),
}

/// An action of a wait, with its texts as plain sequences.
pub enum WaitDecision {
    ReadClock,
    ListPods { selector: Seq<char> },
    Sleep { secs: u64 },
    VerifyPod { index: usize, condition: Seq<char> },
    Done,
    Failed { kind: ErrorKind, message: Seq<char> },
}

impl View for WaitAction {
    type V = WaitDecision;

    open spec fn view(&self) -> WaitDecision {
        match *self {
            WaitAction::ReadClock => WaitDecision::ReadClock,
            WaitAction::ListPods { selector } => WaitDecision::ListPods { selector: selector@ },
            WaitAction::Sleep { secs } => WaitDecision::Sleep { secs },
            WaitAction::VerifyPod { index, condition } => WaitDecision::VerifyPod {
                index,
                condition: condition@,
            },
            WaitAction::Return(Ok(_)) => WaitDecision::Done,
            WaitAction::Return(Err(error)) => WaitDecision::Failed {
                kind: error.kind,
                message: error.message@,
            },
        }
    }
}

/// One step of a wait: the state it is in now, what to do, and what to
/// tell the reader of the test's output.
#[derive(Debug, PartialEq, Eq)]
pub struct WaitStep {
    pub state: WaitState,
    pub action: WaitAction,
    pub notes: Vec<String>,
}

impl WaitStep {
    /// The step with its texts as plain sequences.
    pub open spec fn decided(&self) -> (WaitState, WaitDecision, Seq<Seq<char>>) {
        (self.state, self.action@, texts(self.notes@))
    }
}

/// The note that pods are awaited: how many are there, of how many.
pub open spec fn waiting_ready_text(count: nat, expected: nat) -> Seq<char> {
    "Waiting for ["@ + decimal(count) + "/"@ + decimal(expected) + "] pod(s) to be ready..."@
}

/// The note that all pods are ready.
pub open spec fn finished_text() -> Seq<char> {
    "Installation finished"@
}

/// The note that the termination of pods is awaited.
pub open spec fn waiting_terminated_text(count: nat) -> Seq<char> {
    "Waiting for "@ + decimal(count) + " Pod(s) to terminate"@
}

/// The message of a cluster that did not start in time, with the last
/// count of its pods.
pub open spec fn not_ready_text(timeout: u64, last_count: Option<usize>, expected: usize) -> Seq<
    char,
> {
    "Cluster did not startup within the specified timeout of "@ + decimal(timeout as nat)
        + " second(s)"@ + match last_count {
        Some(count) => ", the last count was ["@ + decimal(count as nat) + "/"@ + decimal(
            expected as nat,
        ) + "] pod(s)"@,
        None => ", the pods were never counted"@,
    }
}

/// The message of pods that did not terminate in time, with their last
/// count.
pub open spec fn not_terminated_text(timeout: u64, last_count: Option<usize>) -> Seq<char> {
    "Pods did not terminate within the specified timeout of "@ + decimal(timeout as nat)
        + " second(s)"@ + match last_count {
        Some(count) => ", the last count was "@ + decimal(count as nat) + " pod(s)"@,
        None => ", the pods were never counted"@,
    }
}

/// The message of a wait that was resumed with an event that cannot follow
/// its last action.
pub open spec fn out_of_order_text() -> Seq<char> {
    "The wait was resumed out of order"@
}

/// The step of the wait for the termination of all pods.
///
/// The clock is read before every look at the pods: once the timeout is
/// reached the wait fails, and the pods are not listed again. The pods
/// are listed by `selector`. An empty list of pods ends the wait with
/// success; any other list is followed by a sleep. The kind and the name
/// of the cluster stand in front of every text: see [`log_text`].
pub open spec fn terminated_step(
    kind: Seq<char>,
    name: Seq<char>,
    selector: Seq<char>,
    timeout: u64,
    state: WaitState,
    event: WaitEvent,
) -> (WaitState, WaitDecision, Seq<Seq<char>>) {
    match state {
        WaitState::Polling { last_count } => match event {
            WaitEvent::Begin => (state, WaitDecision::ReadClock, Seq::empty()),
            WaitEvent::Slept => (state, WaitDecision::ReadClock, Seq::empty()),
            WaitEvent::Clock { elapsed_secs } => if elapsed_secs < timeout {
                (state, WaitDecision::ListPods { selector }, Seq::empty())
            } else {
                (
                    WaitState::Finished,
                    WaitDecision::Failed {
                        kind: ErrorKind::NotTerminated,
                        message: log_text(kind, name, not_terminated_text(timeout, last_count)),
                    },
                    Seq::empty(),
                )
            },
            WaitEvent::Pods { count } => if count == 0 {
                (WaitState::Finished, WaitDecision::Done, Seq::empty())
            } else {
                (
                    WaitState::Polling { last_count: Some(count) },
                    WaitDecision::Sleep { secs: TERMINATED_INTERVAL_SECS },
                    seq![log_text(kind, name, waiting_terminated_text(count as nat))],
                )
            },
            WaitEvent::PodVerified { failure } => out_of_order_step(kind, name),
        },
        _ => out_of_order_step(kind, name),
    }
}

/// The step that ends a wait which was resumed out of order.
pub open spec fn out_of_order_step(kind: Seq<char>, name: Seq<char>) -> (
    WaitState,
    WaitDecision,
    Seq<Seq<char>>,
) {
    (
        WaitState::Finished,
        WaitDecision::Failed {
            kind: ErrorKind::OutOfOrder,
            message: log_text(kind, name, out_of_order_text()),
        },
        Seq::empty(),
    )
}

/// The step of the wait for `expected` ready pods.
///
/// The clock is read before every look at the pods: once the timeout is
/// reached the wait fails with the last count. The pods are listed by
/// `selector`. A list of another length than `expected` is followed by a
/// sleep. A list of that length is verified pod by pod, in its order; the
/// wait succeeds when the last of them is ready and fails when one is not.
pub open spec fn ready_step(
    kind: Seq<char>,
    name: Seq<char>,
    selector: Seq<char>,
    timeout: u64,
    expected: usize,
    state: WaitState,
    event: WaitEvent,
) -> (WaitState, WaitDecision, Seq<Seq<char>>) {
    match state {
        WaitState::Polling { last_count } => match event {
            WaitEvent::Begin => (state, WaitDecision::ReadClock, Seq::empty()),
            WaitEvent::Slept => (state, WaitDecision::ReadClock, Seq::empty()),
            WaitEvent::Clock { elapsed_secs } => if elapsed_secs < timeout {
                (state, WaitDecision::ListPods { selector }, Seq::empty())
            } else {
                (
                    WaitState::Finished,
                    WaitDecision::Failed {
                        kind: ErrorKind::NotReady,
                        message: log_text(kind, name, not_ready_text(timeout, last_count, expected)),
                    },
                    Seq::empty(),
                )
            },
            WaitEvent::Pods { count } => {
                let waiting = log_text(
                    kind,
                    name,
                    waiting_ready_text(count as nat, expected as nat),
                );
                if count != expected {
                    (
                        WaitState::Polling { last_count: Some(count) },
                        WaitDecision::Sleep { secs: READY_INTERVAL_SECS },
                        seq![waiting],
                    )
                } else if count == 0 {
                    (
                        WaitState::Finished,
                        WaitDecision::Done,
                        seq![waiting, log_text(kind, name, finished_text())],
                    )
                } else {
                    (
                        WaitState::Verifying { count, next: 0 },
                        WaitDecision::VerifyPod { index: 0, condition: READY_CONDITION@ },
                        seq![waiting],
                    )
                }
            },
            WaitEvent::PodVerified { failure } => out_of_order_step(kind, name),
        },
        WaitState::Verifying { count, next } => match event {
            WaitEvent::PodVerified { failure } => match failure {
                Some(message) => (
                    WaitState::Finished,
                    WaitDecision::Failed { kind: ErrorKind::PodNotReady, message: message@ },
                    Seq::empty(),
                ),
                None => if next + 1 < count {
                    (
                        WaitState::Verifying { count, next: (next + 1) as usize },
                        WaitDecision::VerifyPod {
                            index: (next + 1) as usize,
                            condition: READY_CONDITION@,
                        },
                        Seq::empty(),
                    )
                } else {
                    (
                        WaitState::Finished,
                        WaitDecision::Done,
                        seq![log_text(kind, name, finished_text())],
                    )
                },
            },
            _ => out_of_order_step(kind, name),
        },
        WaitState::Finished => out_of_order_step(kind, name),
    }
}

impl<T> TestCluster<T> {
    /// The step that ends a wait which was resumed out of order.
    fn out_of_order(&self) -> (step: WaitStep)
        ensures
            step.decided() == out_of_order_step(self.kind@, self.options@.instance_name),
    {
        WaitStep {
            state: WaitState::Finished,
            action: WaitAction::Return(
                Err(
                    ClusterError {
                        kind: ErrorKind::OutOfOrder,
                        message: self.log("The wait was resumed out of order"),
                    },
                ),
            ),
            notes: Vec::new(),
        }
    }

    /// A step without notes.
    fn quiet(state: WaitState, action: WaitAction) -> (step: WaitStep)
        ensures
            step.decided() == (state, action@, Seq::<Seq<char>>::empty()),
    {
        WaitStep { state, action, notes: Vec::new() }
    }

    /// A "busy" wait for all pods to be terminated and cleaned up, one
    /// step of it. Where the wait succeeds while the cluster is being
    /// deleted, the cluster is deleted: it holds no resource any more.
    pub fn wait_for_pods_terminated(&mut self, state: WaitState, event: WaitEvent) -> (step:
        WaitStep)
        ensures
            step.decided() == terminated_step(
                old(self).kind@,
                old(self).options@.instance_name,
                selector_text(old(self).selection_entries(None)),
                old(self).timeouts.pods_terminated,
                state,
                event,
            ),
            final(self).kind == old(self).kind,
            final(self).client == old(self).client,
            final(self).options == old(self).options,
            final(self).labels == old(self).labels,
            final(self).timeouts == old(self).timeouts,
            step.action@ == WaitDecision::Done && old(self).lifecycle == Lifecycle::Deleting ==> final(self).cluster is None && final(self).lifecycle == Lifecycle::Deleted,
            !(step.action@ == WaitDecision::Done && old(self).lifecycle == Lifecycle::Deleting)
                ==> final(self).cluster == old(self).cluster && final(self).lifecycle == old(self).lifecycle,
            old(self).well_formed() ==> final(self).well_formed(),
    {
        let timeout = self.timeouts.pods_terminated;
        match state {
            WaitState::Polling { last_count } => match event {
                WaitEvent::Begin => Self::quiet(state, WaitAction::ReadClock),
                WaitEvent::Slept => Self::quiet(state, WaitAction::ReadClock),
                WaitEvent::Clock { elapsed_secs } => {
                    if elapsed_secs < timeout {
                        Self::quiet(state, WaitAction::ListPods { selector: self.list_selector(None) })
                    } else {
                        let mut text = String::from_str(
                            "Pods did not terminate within the specified timeout of ",
                        );
                        push_decimal(&mut text, timeout);
                        text.append(" second(s)");
                        match last_count {
                            Some(count) => {
                                text.append(", the last count was ");
                                push_decimal(&mut text, count as u64);
                                text.append(" pod(s)");
                            },
                            None => {
                                text.append(", the pods were never counted");
                            },
                        }
                        assert(text@ =~= not_terminated_text(timeout, last_count));
                        Self::quiet(
                            WaitState::Finished,
                            WaitAction::Return(
                                Err(
                                    ClusterError {
                                        kind: ErrorKind::NotTerminated,
                                        message: self.log(text.as_str()),
                                    },
                                ),
                            ),
                        )
                    }
                },
                WaitEvent::Pods { count } => {
                    if count == 0 {
                        match self.lifecycle {
                            Lifecycle::Deleting => {
                                self.cluster = None;
                                self.lifecycle = Lifecycle::Deleted;
                            },
                            _ => {},
                        }
                        Self::quiet(WaitState::Finished, WaitAction::Return(Ok(())))
                    } else {
                        let mut text = String::from_str("Waiting for ");
                        push_decimal(&mut text, count as u64);
                        text.append(" Pod(s) to terminate");
                        let mut notes: Vec<String> = Vec::new();
                        notes.push(self.log(text.as_str()));
                        WaitStep {
                            state: WaitState::Polling { last_count: Some(count) },
                            action: WaitAction::Sleep { secs: TERMINATED_INTERVAL_SECS },
                            notes,
                        }
                    }
                },
                WaitEvent::PodVerified { failure } => self.out_of_order(),
            },
            _ => self.out_of_order(),
        }
    }

    /// Wait for the `expected_pod_count` pods to become ready or return an
    /// error if they fail to do so after a certain time, one step of it.
    /// The amount of time it waits is configured by the user in the
    /// `cluster_ready` field of the `TestClusterTimeouts`. Where the wait
    /// succeeds on an applied cluster, the cluster is ready.
    ///
    /// # Arguments
    ///
    /// * `expected_pod_count` - Number of pods to wait for until they become ready.
    ///
    pub fn wait_ready(&mut self, expected_pod_count: usize, state: WaitState, event: WaitEvent) -> (step:
        WaitStep)
        ensures
            step.decided() == ready_step(
                old(self).kind@,
                old(self).options@.instance_name,
                selector_text(old(self).selection_entries(None)),
                old(self).timeouts.cluster_ready,
                expected_pod_count,
                state,
                event,
            ),
            final(self).kind == old(self).kind,
            final(self).client == old(self).client,
            final(self).cluster == old(self).cluster,
            final(self).options == old(self).options,
            final(self).labels == old(self).labels,
            final(self).timeouts == old(self).timeouts,
            final(self).lifecycle == if step.action@ == WaitDecision::Done && old(self).lifecycle
                == Lifecycle::Applied {
                Lifecycle::Ready
            } else {
                old(self).lifecycle
            },
            old(self).well_formed() ==> final(self).well_formed(),
    {
        let timeout = self.timeouts.cluster_ready;
        match state {
            WaitState::Polling { last_count } => match event {
                WaitEvent::Begin => Self::quiet(state, WaitAction::ReadClock),
                WaitEvent::Slept => Self::quiet(state, WaitAction::ReadClock),
                WaitEvent::Clock { elapsed_secs } => {
                    if elapsed_secs < timeout {
                        Self::quiet(state, WaitAction::ListPods { selector: self.list_selector(None) })
                    } else {
                        let mut text = String::from_str(
                            "Cluster did not startup within the specified timeout of ",
                        );
                        push_decimal(&mut text, timeout);
                        text.append(" second(s)");
                        match last_count {
                            Some(count) => {
                                text.append(", the last count was [");
                                push_decimal(&mut text, count as u64);
                                text.append("/");
                                push_decimal(&mut text, expected_pod_count as u64);
                                text.append("] pod(s)");
                            },
                            None => {
                                text.append(", the pods were never counted");
                            },
                        }
                        assert(text@ =~= not_ready_text(timeout, last_count, expected_pod_count));
                        Self::quiet(
                            WaitState::Finished,
                            WaitAction::Return(
                                Err(
                                    ClusterError {
                                        kind: ErrorKind::NotReady,
                                        message: self.log(text.as_str()),
                                    },
                                ),
                            ),
                        )
                    }
                },
                WaitEvent::Pods { count } => {
                    let mut text = String::from_str("Waiting for [");
                    push_decimal(&mut text, count as u64);
                    text.append("/");
                    push_decimal(&mut text, expected_pod_count as u64);
                    text.append("] pod(s) to be ready...");
                    let mut notes: Vec<String> = Vec::new();
                    notes.push(self.log(text.as_str()));
                    if count != expected_pod_count {
                        WaitStep {
                            state: WaitState::Polling { last_count: Some(count) },
                            action: WaitAction::Sleep { secs: READY_INTERVAL_SECS },
                            notes,
                        }
                    } else if count == 0 {
                        notes.push(self.log("Installation finished"));
                        self.now_ready();
                        WaitStep {
                            state: WaitState::Finished,
                            action: WaitAction::Return(Ok(())),
                            notes,
                        }
                    } else {
                        WaitStep {
                            state: WaitState::Verifying { count, next: 0 },
                            action: WaitAction::VerifyPod {
                                index: 0,
                                condition: String::from_str(READY_CONDITION),
                            },
                            notes,
                        }
                    }
                },
                WaitEvent::PodVerified { failure } => self.out_of_order(),
            },
            WaitState::Verifying { count, next } => match event {
                WaitEvent::PodVerified { failure } => match failure {
                    Some(message) => Self::quiet(
                        WaitState::Finished,
                        WaitAction::Return(
                            Err(ClusterError { kind: ErrorKind::PodNotReady, message }),
                        ),
                    ),
                    None => {
                        if next < count && next + 1 < count {
                            Self::quiet(
                                WaitState::Verifying { count, next: next + 1 },
                                WaitAction::VerifyPod {
                                    index: next + 1,
                                    condition: String::from_str(READY_CONDITION),
                                },
                            )
                        } else {
                            let mut notes: Vec<String> = Vec::new();
                            notes.push(self.log("Installation finished"));
                            self.now_ready();
                            WaitStep {
                                state: WaitState::Finished,
                                action: WaitAction::Return(Ok(())),
                                notes,
                            }
                        }
                    },
                },
                _ => self.out_of_order(),
            },
            WaitState::Finished => self.out_of_order(),
        }
    }

    /// An applied cluster becomes a ready one.
    fn now_ready(&mut self)
        ensures
            final(self).kind == old(self).kind,
            final(self).client == old(self).client,
            final(self).cluster == old(self).cluster,
            final(self).options == old(self).options,
            final(self).labels == old(self).labels,
            final(self).timeouts == old(self).timeouts,
            final(self).lifecycle == if old(self).lifecycle == Lifecycle::Applied {
                Lifecycle::Ready
            } else {
                old(self).lifecycle
            },
    {
        match self.lifecycle {
            Lifecycle::Applied => {
                self.lifecycle = Lifecycle::Ready;
            },
            _ => {},
        }
    }
}

impl<T> TestCluster<T> {
    /// Stores the cluster object as the API server returned it on apply,
    /// and returns the seconds to sleep now, to give the operator time to
    /// react on the custom resource. Without the sleep it can happen that
    /// tests run without any pods being created.
    pub fn apply(&mut self, applied: T) -> (grace_secs: u64)
        ensures
            grace_secs == GRACE_PERIOD_SECS,
            final(self).cluster == Some(applied),
            final(self).lifecycle == Lifecycle::Applied,
            final(self).kind == old(self).kind,
            final(self).client == old(self).client,
            final(self).options == old(self).options,
            final(self).labels == old(self).labels,
            final(self).timeouts == old(self).timeouts,
            final(self).well_formed(),
    {
        self.cluster = Some(applied);
        self.lifecycle = Lifecycle::Applied;
        GRACE_PERIOD_SECS
    }

    /// Hands back the command as the API server returned it on apply, with
    /// the seconds to sleep now to let the operator react on it. The
    /// cluster is not touched.
    pub fn apply_command<C>(&self, applied: C) -> (result: (C, u64))
        ensures
            result == (applied, GRACE_PERIOD_SECS),
    {
        (applied, GRACE_PERIOD_SECS)
    }

    /// Creates or updates a custom resource and waits for the cluster to
    /// be up and running, one step of it: the cluster object is stored as
    /// the API server returned it on apply, the operator is given its
    /// grace period, and then `expected_pod_count` ready pods are awaited
    /// as by [`Self::wait_ready`].
    pub fn create_or_update(
        &mut self,
        expected_pod_count: usize,
        state: UpdateState,
        event: UpdateEvent<T>,
    ) -> (step: UpdateStep)
        ensures
            step.decided() == update_step(
                old(self).kind@,
                old(self).options@.instance_name,
                selector_text(old(self).selection_entries(None)),
                old(self).timeouts.cluster_ready,
                expected_pod_count,
                state,
                event,
            ),
            final(self).kind == old(self).kind,
            final(self).client == old(self).client,
            final(self).options == old(self).options,
            final(self).labels == old(self).labels,
            final(self).timeouts == old(self).timeouts,
            final(self).cluster == if state == UpdateState::Applying && event is Applied {
                Some(event->Applied_0)
            } else {
                old(self).cluster
            },
            final(self).lifecycle == if state == UpdateState::Applying && event is Applied {
                Lifecycle::Applied
            } else if step.action@ == WaitDecision::Done && old(self).lifecycle
                == Lifecycle::Applied {
                Lifecycle::Ready
            } else {
                old(self).lifecycle
            },
            old(self).well_formed() ==> final(self).well_formed(),
    {
        match state {
            UpdateState::Applying => match event {
                UpdateEvent::Applied(applied) => {
                    let grace_secs = self.apply(applied);
                    UpdateStep {
                        state: UpdateState::Settling,
                        action: WaitAction::Sleep { secs: grace_secs },
                        notes: Vec::new(),
                    }
                },
                UpdateEvent::Wait(_) => self.update_out_of_order(),
            },
            UpdateState::Settling => match event {
                UpdateEvent::Wait(WaitEvent::Slept) => {
                    let step = self.wait_ready(
                        expected_pod_count,
                        WaitState::Polling { last_count: None },
                        WaitEvent::Begin,
                    );
                    UpdateStep {
                        state: UpdateState::Waiting(step.state),
                        action: step.action,
                        notes: step.notes,
                    }
                },
                _ => self.update_out_of_order(),
            },
            UpdateState::Waiting(waiting) => match event {
                UpdateEvent::Wait(reported) => {
                    let step = self.wait_ready(expected_pod_count, waiting, reported);
                    UpdateStep {
                        state: UpdateState::Waiting(step.state),
                        action: step.action,
                        notes: step.notes,
                    }
                },
                UpdateEvent::Applied(_) => self.update_out_of_order(),
            },
        }
    }

    /// The step that ends a creation or update which was resumed out of order.
    fn update_out_of_order(&self) -> (step: UpdateStep)
        ensures
            step.decided() == (
                UpdateState::Waiting(WaitState::Finished),
                out_of_order_step(self.kind@, self.options@.instance_name).1,
                Seq::<Seq<char>>::empty(),
            ),
    {
        let step = self.out_of_order();
        UpdateStep {
            state: UpdateState::Waiting(WaitState::Finished),
            action: step.action,
            notes: step.notes,
        }
    }

    /// Begins the deletion of the cluster, as at the end of every test:
    /// says whether there is a cluster to delete. Where there is, the
    /// caller deletes the resource that the cluster holds and then waits
    /// for its pods to terminate; the cluster keeps the resource until
    /// that wait has succeeded.
    pub fn delete(&mut self) -> (pending: bool)
        ensures
            pending == old(self).cluster is Some,
            final(self).cluster == old(self).cluster,
            final(self).lifecycle == if pending {
                Lifecycle::Deleting
            } else {
                old(self).lifecycle
            },
            final(self).kind == old(self).kind,
            final(self).client == old(self).client,
            final(self).options == old(self).options,
            final(self).labels == old(self).labels,
            final(self).timeouts == old(self).timeouts,
            old(self).well_formed() ==> final(self).well_formed(),
    {
        if self.cluster.is_some() {
            self.lifecycle = Lifecycle::Deleting;
            true
        } else {
            false
        }
    }
}

/// Where the creation or update of a cluster stands.
#[derive(Clone, Copy, Debug, PartialEq, Eq)]
pub enum UpdateState {
    /// The cluster resource is being applied.
    Applying,
    /// The operator is given time to react.
    Settling,
    /// The ready pods are awaited.
    Waiting(WaitState),
}

/// What the caller reports to the creation or update of a cluster.
#[derive(Clone, Debug, PartialEq, Eq)]
pub enum UpdateEvent<T> {
    /// The cluster resource was applied: this is what the API server returned.
    Applied(T),
    /// What a wait is told: see [`WaitEvent`].
    Wait(WaitEvent),
}

/// One step of the creation or update of a cluster.
#[derive(Debug, PartialEq, Eq)]
pub struct UpdateStep {
    pub state: UpdateState,
    pub action: WaitAction,
    pub notes: Vec<String>,
}

impl UpdateStep {
    /// The step with its texts as plain sequences.
    pub open spec fn decided(&self) -> (UpdateState, WaitDecision, Seq<Seq<char>>) {
        (self.state, self.action@, texts(self.notes@))
    }
}

/// The step of the creation or update of a cluster: once the resource is
/// applied, the grace period is slept; after that the wait for `expected`
/// ready pods begins and goes on as [`ready_step`] says.
pub open spec fn update_step<T>(
    kind: Seq<char>,
    name: Seq<char>,
    selector: Seq<char>,
    timeout: u64,
    expected: usize,
    state: UpdateState,
    event: UpdateEvent<T>,
) -> (UpdateState, WaitDecision, Seq<Seq<char>>) {
    match (state, event) {
        (UpdateState::Applying, UpdateEvent::Applied(_)) => (
            UpdateState::Settling,
            WaitDecision::Sleep { secs: GRACE_PERIOD_SECS },
            Seq::empty(),
        ),
        (UpdateState::Settling, UpdateEvent::Wait(WaitEvent::Slept)) => {
            let step = ready_step(
                kind,
                name,
                selector,
                timeout,
                expected,
                WaitState::Polling { last_count: None },
                WaitEvent::Begin,
            );
            (UpdateState::Waiting(step.0), step.1, step.2)
        },
        (UpdateState::Waiting(waiting), UpdateEvent::Wait(reported)) => {
            let step = ready_step(kind, name, selector, timeout, expected, waiting, reported);
            (UpdateState::Waiting(step.0), step.1, step.2)
        },
        _ => (
            UpdateState::Waiting(WaitState::Finished),
            out_of_order_step(kind, name).1,
            Seq::empty(),
        ),
    }
}

/// What a wait has decided after a series of events, each reported to the
/// state that the event before it left: the state the wait is in, and the
/// decision on the last event, if there was an event.
pub open spec fn ready_run(
    kind: Seq<char>,
    name: Seq<char>,
    selector: Seq<char>,
    timeout: u64,
    expected: usize,
    events: Seq<WaitEvent>,
) -> (WaitState, Option<WaitDecision>)
    decreases events.len(),
{
    if events.len() == 0 {
        (WaitState::Polling { last_count: None }, None)
    } else {
        let before = ready_run(kind, name, selector, timeout, expected, events.drop_last());
        let step = ready_step(kind, name, selector, timeout, expected, before.0, events.last());
        (step.0, Some(step.1))
    }
}

/// What the wait for termination has decided after a series of events.
pub open spec fn terminated_run(
    kind: Seq<char>,
    name: Seq<char>,
    selector: Seq<char>,
    timeout: u64,
    events: Seq<WaitEvent>,
) -> (WaitState, Option<WaitDecision>)
    decreases events.len(),
{
    if events.len() == 0 {
        (WaitState::Polling { last_count: None }, None)
    } else {
        let before = terminated_run(kind, name, selector, timeout, events.drop_last());
        let step = terminated_step(kind, name, selector, timeout, before.0, events.last());
        (step.0, Some(step.1))
    }
}

/// A wait is over exactly when its state is `Finished`: each step ends in
/// that state if and only if it returns.
pub proof fn lemma_wait_finishes_on_return(
    kind: Seq<char>,
    name: Seq<char>,
    selector: Seq<char>,
    timeout: u64,
    expected: usize,
    state: WaitState,
    event: WaitEvent,
)
    ensures
        ({
            let step = ready_step(kind, name, selector, timeout, expected, state, event);
            step.0 == WaitState::Finished <==> (step.1 == WaitDecision::Done
                || step.1 is Failed)
        }),
        ({
            let step = terminated_step(kind, name, selector, timeout, state, event);
            step.0 == WaitState::Finished <==> (step.1 == WaitDecision::Done
                || step.1 is Failed)
        }),
{
}

/// The wait for termination succeeds the instant the list of pods is
/// empty, and at no other time: a step returns success if and only if the
/// wait was polling and the event is a list of no pods. While a pod
/// remains in the list, whatever its state, no success is returned.
pub proof fn lemma_terminated_iff_no_pod_left(
    kind: Seq<char>,
    name: Seq<char>,
    selector: Seq<char>,
    timeout: u64,
    state: WaitState,
    event: WaitEvent,
)
    ensures
        terminated_step(kind, name, selector, timeout, state, event).1 == WaitDecision::Done <==> (
        state is Polling && event == (WaitEvent::Pods { count: 0 })),
{
}

/// Over a whole wait for termination: after any series of events the wait
/// has succeeded if and only if the last event is a list of no pods and
/// the wait had not returned before.
pub proof fn lemma_terminated_run(
    kind: Seq<char>,
    name: Seq<char>,
    selector: Seq<char>,
    timeout: u64,
    events: Seq<WaitEvent>,
)
    requires
        events.len() > 0,
    ensures
        terminated_run(kind, name, selector, timeout, events).1 == Some(WaitDecision::Done) <==> (
        events.last() == (WaitEvent::Pods { count: 0 }) && terminated_run(
            kind,
            name,
            selector,
            timeout,
            events.drop_last(),
        ).0 is Polling),
        terminated_run(kind, name, selector, timeout, events).0 is Polling || terminated_run(
            kind,
            name,
            selector,
            timeout,
            events,
        ).0 == WaitState::Finished,
    decreases events.len(),
{
    if events.len() > 1 {
        lemma_terminated_run(kind, name, selector, timeout, events.drop_last());
    }
}

/// The event that a pod was verified and is ready.
pub open spec fn pod_ready() -> WaitEvent {
    WaitEvent::PodVerified { failure: None }
}

/// The events show a success of the wait for `expected` ready pods that
/// begins at position `at`: the wait was polling, the pods were counted
/// there and were `expected`, and what follows is one report for each of
/// them, every one of them ready, and nothing else.
pub open spec fn succeeds_at(
    kind: Seq<char>,
    name: Seq<char>,
    selector: Seq<char>,
    timeout: u64,
    expected: usize,
    events: Seq<WaitEvent>,
    at: int,
) -> bool {
    &&& 0 <= at < events.len()
    &&& events[at] == (WaitEvent::Pods { count: expected })
    &&& ready_run(kind, name, selector, timeout, expected, events.subrange(0, at)).0 is Polling
    &&& events.len() == at + 1 + expected
    &&& forall|j: int| at < j < events.len() ==> events[j] == pod_ready()
}

/// A step of the wait for ready pods returns success in two cases only:
/// no pod is expected and none was counted, or the last of the expected
/// pods was verified and is ready. It fails with a timeout where the
/// clock has reached the timeout before the count was right, and with the
/// failure of the verification where a pod of the right count did not get
/// ready.
pub proof fn lemma_ready_step(
    kind: Seq<char>,
    name: Seq<char>,
    selector: Seq<char>,
    timeout: u64,
    expected: usize,
    state: WaitState,
    event: WaitEvent,
)
    ensures
        ready_step(kind, name, selector, timeout, expected, state, event).1 == WaitDecision::Done <==> ((
        state is Polling && expected == 0 && event == (WaitEvent::Pods { count: 0 })) || (
        state is Verifying && event == pod_ready() && state->next + 1 >= state->count)),
        state is Polling && event is Clock && event->elapsed_secs >= timeout ==> ready_step(
            kind,
            name,
            selector,
            timeout,
            expected,
            state,
            event,
        ).1 == (WaitDecision::Failed {
            kind: ErrorKind::NotReady,
            message: log_text(kind, name, not_ready_text(timeout, state->last_count, expected)),
        }),
        state is Verifying && event is PodVerified && event->failure is Some ==> ready_step(
            kind,
            name,
            selector,
            timeout,
            expected,
            state,
            event,
        ).1 == (WaitDecision::Failed {
            kind: ErrorKind::PodNotReady,
            message: event->failure->0@,
        }),
        state is Polling && event is Pods && event->count != expected ==> ready_step(
            kind,
            name,
            selector,
            timeout,
            expected,
            state,
            event,
        ).1 == (WaitDecision::Sleep { secs: READY_INTERVAL_SECS }),
{
}

/// While pods are verified, the events say how the wait came there: the
/// pods were counted as expected while the wait was polling, and every
/// report since was of a ready pod.
proof fn lemma_ready_verifying(
    kind: Seq<char>,
    name: Seq<char>,
    selector: Seq<char>,
    timeout: u64,
    expected: usize,
    events: Seq<WaitEvent>,
)
    ensures
        ({
            let state = ready_run(kind, name, selector, timeout, expected, events).0;
            state is Verifying ==> {
                let at = events.len() - 1 - state->next;
                &&& state->count == expected
                &&& state->next < state->count
                &&& 0 <= at < events.len()
                &&& events[at] == (WaitEvent::Pods { count: expected })
                &&& ready_run(kind, name, selector, timeout, expected, events.subrange(0, at)).0 is Polling
                &&& forall|j: int| at < j < events.len() ==> events[j] == pod_ready()
            }
        }),
    decreases events.len(),
{
    if events.len() > 0 {
        let earlier = events.drop_last();
        lemma_ready_verifying(kind, name, selector, timeout, expected, earlier);
        let before = ready_run(kind, name, selector, timeout, expected, earlier).0;
        let state = ready_run(kind, name, selector, timeout, expected, events).0;
        if state is Verifying {
            let at = events.len() - 1 - state->next;
            if before is Verifying {
                assert(earlier.subrange(0, at) =~= events.subrange(0, at));
                assert forall|j: int| at < j < events.len() implies events[j] == pod_ready() by {
                    if j < events.len() - 1 {
                        assert(events[j] == earlier[j]);
                    }
                }
            }
        }
    }
}

/// Over a whole wait: after any series of events, the wait for `expected`
/// ready pods has succeeded if and only if the pods were counted while it
/// was polling and were exactly `expected`, and after that each of them
/// was reported ready, one by one, with the last event the report of the
/// last pod.
pub proof fn lemma_ready_run(
    kind: Seq<char>,
    name: Seq<char>,
    selector: Seq<char>,
    timeout: u64,
    expected: usize,
    events: Seq<WaitEvent>,
)
    ensures
        ready_run(kind, name, selector, timeout, expected, events).1 == Some(WaitDecision::Done) <==> exists|
            at: int,
        | succeeds_at(kind, name, selector, timeout, expected, events, at),
{
    if events.len() > 0 {
        let earlier = events.drop_last();
        let before = ready_run(kind, name, selector, timeout, expected, earlier).0;
        lemma_ready_verifying(kind, name, selector, timeout, expected, earlier);
        lemma_ready_step(kind, name, selector, timeout, expected, before, events.last());
        let last = events.len() - 1;
        if ready_run(kind, name, selector, timeout, expected, events).1 == Some(WaitDecision::Done) {
            if before is Polling {
                assert(succeeds_at(kind, name, selector, timeout, expected, events, last));
            } else {
                let at = earlier.len() - 1 - before->next;
                assert(earlier.subrange(0, at) =~= events.subrange(0, at));
                assert forall|j: int| at < j < events.len() implies events[j] == pod_ready() by {
                    if j < last {
                        assert(events[j] == earlier[j]);
                    }
                }
                assert(succeeds_at(kind, name, selector, timeout, expected, events, at));
            }
        }
        if exists|at: int| succeeds_at(kind, name, selector, timeout, expected, events, at) {
            let at = choose|at: int| succeeds_at(kind, name, selector, timeout, expected, events, at);
            lemma_ready_counted(kind, name, selector, timeout, expected, events, at, events.len() as int);
        }
    } else {
        assert forall|at: int| !succeeds_at(kind, name, selector, timeout, expected, events, at) by {}
    }
}

/// Once the pods were counted as expected, each report of a ready pod
/// moves the wait on by one pod, and the report of the last one ends it
/// with success.
proof fn lemma_ready_counted(
    kind: Seq<char>,
    name: Seq<char>,
    selector: Seq<char>,
    timeout: u64,
    expected: usize,
    events: Seq<WaitEvent>,
    at: int,
    upto: int,
)
    requires
        0 <= at < upto <= events.len(),
        upto <= at + 1 + expected,
        events[at] == (WaitEvent::Pods { count: expected }),
        ready_run(kind, name, selector, timeout, expected, events.subrange(0, at)).0 is Polling,
        forall|j: int| at < j < upto ==> events[j] == pod_ready(),
    ensures
        ({
            let run = ready_run(kind, name, selector, timeout, expected, events.subrange(0, upto));
            let seen = upto - at - 1;
            if seen == expected {
                run.1 == Some(WaitDecision::Done)
            } else {
                run.0 == (WaitState::Verifying { count: expected, next: seen as usize })
            }
        }),
        upto == events.len() && upto == at + 1 + expected ==> ready_run(
            kind,
            name,
            selector,
            timeout,
            expected,
            events,
        ).1 == Some(WaitDecision::Done),
    decreases upto - at,
{
    let prefix = events.subrange(0, upto);
    assert(prefix.drop_last() =~= events.subrange(0, upto - 1));
    if upto > at + 1 {
        lemma_ready_counted(kind, name, selector, timeout, expected, events, at, upto - 1);
    }
}

/// For all additional labels and all sets of resources, what `list`
/// returns is exactly the subset of the resources whose labels hold every
/// label of the selection: a resource is listed if and only if it is one
/// of the resources and the selection is part of its labels.
pub proof fn lemma_list_is_the_selected_subset<T, R>(
    cluster: TestCluster<T>,
    additional_labels: Option<TextMap>,
    resources: Seq<Object<R>>,
    resource: Object<R>,
)
    ensures
        resources.filter(
            |each: Object<R>| cluster.selects(additional_labels, each.metadata),
        ).contains(resource) <==> resources.contains(resource) && cluster.selection(
            additional_labels,
        ).submap_of(resource.metadata.labels_view()),
{
    let chosen = |each: Object<R>| cluster.selects(additional_labels, each.metadata);
    let listed = resources.filter(chosen);
    if listed.contains(resource) {
        let i = choose|i: int| 0 <= i < listed.len() && listed[i] == resource;
        resources.lemma_filter_pred(chosen, i);
        resources.lemma_filter_contains_rev(chosen, resource);
    }
    if resources.contains(resource) && chosen(resource) {
        let i = choose|i: int| 0 <= i < resources.len() && resources[i] == resource;
        resources.lemma_filter_contains(chosen, i);
    }
}

} // verus!
