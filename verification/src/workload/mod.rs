//! Workload executors and the registry that dispatches to them.
//!
//! An executor turns a runtime specification into a running workload. The
//! registry holds executors in priority order and hands a specification to
//! the first one that accepts it.

use oci_spec::runtime::Spec;
use vstd::prelude::*;

verus! {

/// The runtime specification of `oci_spec`. The registry never looks inside
/// it: it only passes it on to the executors.
#[verifier::external_type_specification]
#[verifier::external_body]
pub struct ExSpec(oci_spec::runtime::Spec);

/// Why an executor could not run a workload.
#[derive(Debug, PartialEq, Eq)]
pub enum ExecutorError {
    /// The specification asks for something the executor cannot take.
    InvalidArg,
    /// Running the workload failed; the text describes the underlying cause.
    Execution(String),
    /// Any other failure, in the executor's own words.
    Other(String),
}

impl ExecutorError {
    /// The text of `message`.
    pub open spec fn message_text(&self) -> Seq<char> {
        match self {
            ExecutorError::InvalidArg => "invalid argument"@,
            ExecutorError::Execution(_) => "failed to execute workload"@,
            ExecutorError::Other(text) => text@,
        }
    }

    /// Says in a line what went wrong.
    pub fn message(&self) -> (text: String)
        ensures
            text@ == self.message_text(),
    {
        match self {
            ExecutorError::InvalidArg => "invalid argument".to_owned(),
            ExecutorError::Execution(_) => "failed to execute workload".to_owned(),
            ExecutorError::Other(text) => text.clone(),
        }
    }
}

/// A handler that can run some workloads.
///
/// `accepts` and `label` say in contracts what `can_handle` and `name`
/// return. By them an implementation promises that its predicate depends on
/// nothing but the executor and the specification, and that its name never
/// changes; the registry's contracts rest on that promise, which is checked
/// only for implementations that are verified. Nothing is promised of
/// `exec`, whose outcome depends on the machine.
///
/// Compiled code never calls `accepts` or `label`. An implementation that is
/// not verified still has to write them, and lets them answer as `can_handle`
/// and `name` do.
pub trait Executor {
    /// Whether this executor takes the workload that `spec` describes.
    spec fn accepts(&self, spec: &Spec) -> bool;

    /// The executor's display name.
    spec fn label(&self) -> &'static str;

    /// Executes the workload.
    fn exec(&self, spec: &Spec) -> Result<(), ExecutorError>;

    /// Checks if the handler is able to handle the workload.
    fn can_handle(&self, spec: &Spec) -> (accepted: bool)
        ensures
            accepted == self.accepts(spec),
    ;

    /// The name of the handler.
    fn name(&self) -> (name: &'static str)
        ensures
            name == self.label(),
    ;
}

/// Why the registry could not run a workload.
#[derive(Debug, PartialEq, Eq)]
pub enum ExecutorManagerError {
    /// The chosen executor failed: its name, and the error it returned.
    ExecutionFailed { source: ExecutorError, name: String },
    /// No registered executor accepts the specification.
    NoExecutorFound,
}

impl ExecutorManagerError {
    /// The text of `message`.
    pub open spec fn message_text(&self) -> Seq<char> {
        match self {
            ExecutorManagerError::ExecutionFailed { name, .. } => "failed executor "@ + name@,
            ExecutorManagerError::NoExecutorFound =>
                "failed to find an executor that satisfies all requirements"@,
        }
    }

    /// Says in a line what went wrong; for a failed executor, which one.
    pub fn message(&self) -> (text: String)
        ensures
            text@ == self.message_text(),
    {
        match self {
            ExecutorManagerError::ExecutionFailed { name, .. } => {
                let mut text = "failed executor ".to_owned();
                text.append(name.as_str());
                text
            },
            ExecutorManagerError::NoExecutorFound => {
                "failed to find an executor that satisfies all requirements".to_owned()
            },
        }
    }
}

/// The arguments of a workload that has none.
pub fn empty() -> (args: Vec<String>)
    ensures
        args@.len() == 0,
{
    Vec::new()
}

/// Manages the executors that run workloads: an ordered list, earliest
/// registered first, in which the first executor that accepts a specification
/// is the one that runs it.
pub struct ExecutorManager {
    pub executors: Vec<Box<dyn Executor>>,
}

impl ExecutorManager {
    /// The executor at position `i` accepts `spec`, and none before it does.
    pub open spec fn is_first_match(&self, spec: &Spec, i: int) -> bool {
        &&& 0 <= i < self.executors@.len()
        &&& self.executors@[i].accepts(spec)
        &&& forall|j: int| 0 <= j < i ==> !(#[trigger] self.executors@[j]).accepts(spec)
    }

    /// No registered executor accepts `spec`.
    pub open spec fn no_match(&self, spec: &Spec) -> bool {
        forall|j: int| 0 <= j < self.executors@.len() ==> !(#[trigger] self.executors@[j]).accepts(spec)
    }

    /// Finds the executor responsible for `spec`: the position of the first
    /// one that accepts it, or `None` when none does. Executors after the
    /// first match are not consulted.
    pub fn select(&self, spec: &Spec) -> (found: Option<usize>)
        ensures
            match found {
                Some(i) => self.is_first_match(spec, i as int),
                None => self.no_match(spec),
            },
    {
        let mut i: usize = 0;
        while i < self.executors.len()
            invariant
                i <= self.executors@.len(),
                forall|j: int| 0 <= j < i ==> !(#[trigger] self.executors@[j]).accepts(spec),
            decreases self.executors@.len() - i,
        {
            if self.executors[i].can_handle(spec) {
                return Some(i);
            }
            i = i + 1;
        }
        None
    }

    /// Runs the workload that `spec` describes on the first executor that
    /// accepts it.
    ///
    /// Fails with `NoExecutorFound` exactly when no executor accepts `spec`,
    /// which includes the empty registry. Otherwise the first match runs, and
    /// a failure is reported under its name.
    pub fn exec(&self, spec: &Spec) -> (r: Result<(), ExecutorManagerError>)
        ensures
            self.executors@.len() == 0 ==> r == Err::<(), ExecutorManagerError>(
                ExecutorManagerError::NoExecutorFound,
            ),
            self.no_match(spec) <==> r == Err::<(), ExecutorManagerError>(
                ExecutorManagerError::NoExecutorFound,
            ),
            forall|i: int|
                self.is_first_match(spec, i) ==> r is Ok || (r matches Err(
                    ExecutorManagerError::ExecutionFailed { name, .. },
                ) && name@ == self.executors@[i].label()@),
    {
        match self.select(spec) {
            None => Err(ExecutorManagerError::NoExecutorFound),
            Some(i) => {
                let executor = &self.executors[i];
                Self::executed(executor.name(), executor.exec(spec))
            },
        }
    }

    /// What the registry reports once the executor called `name` has
    /// returned `outcome`: success as it is, a failure wrapped together with
    /// the executor's name.
    pub fn executed(name: &str, outcome: Result<(), ExecutorError>) -> (r: Result<
        (),
        ExecutorManagerError,
    >)
        ensures
            match outcome {
                Ok(()) => r is Ok,
                Err(e) => r matches Err(ExecutorManagerError::ExecutionFailed { source, name: n })
                    && source == e && n@ == name@,
            },
    {
        match outcome {
            Ok(()) => Ok(()),
            Err(e) => Err(ExecutorManagerError::ExecutionFailed { source: e, name: name.to_owned() }),
        }
    }

    /// Where any executor accepts a specification, one of them is its first
    /// match, at or before that executor's position.
    pub proof fn lemma_first_match_exists(&self, spec: &Spec, k: int)
        requires
            0 <= k < self.executors@.len(),
            self.executors@[k].accepts(spec),
        ensures
            exists|i: int| 0 <= i <= k && self.is_first_match(spec, i),
        decreases k,
    {
        if exists|j: int| 0 <= j < k && (#[trigger] self.executors@[j]).accepts(spec) {
            let j = choose|j: int| 0 <= j < k && (#[trigger] self.executors@[j]).accepts(spec);
            self.lemma_first_match_exists(spec, j);
        } else {
            assert(self.is_first_match(spec, k));
        }
    }

    /// Registration order breaks ties: of two executors that both accept a
    /// specification, the one registered later is never its first match.
    pub proof fn law_earlier_executor_wins(&self, spec: &Spec, earlier: int, later: int)
        requires
            0 <= earlier < later < self.executors@.len(),
            self.executors@[earlier].accepts(spec),
            self.executors@[later].accepts(spec),
        ensures
            !self.is_first_match(spec, later),
            exists|i: int| 0 <= i <= earlier && self.is_first_match(spec, i),
    {
        self.lemma_first_match_exists(spec, earlier);
    }

    /// Either no executor accepts a specification, or it has a first match.
    pub proof fn law_match_or_none(&self, spec: &Spec)
        ensures
            self.no_match(spec) <==> !exists|i: int| self.is_first_match(spec, i),
    {
        if !self.no_match(spec) {
            let k = choose|k: int|
                0 <= k < self.executors@.len() && (#[trigger] self.executors@[k]).accepts(spec);
            self.lemma_first_match_exists(spec, k);
        }
    }

    /// A specification has at most one first match.
    pub proof fn law_first_match_is_unique(&self, spec: &Spec)
        ensures
            forall|i: int, j: int|
                self.is_first_match(spec, i) && self.is_first_match(spec, j) ==> i == j,
    {
        assert forall|i: int, j: int|
            self.is_first_match(spec, i) && self.is_first_match(spec, j) implies i == j by {
            if i < j {
                assert(!self.executors@[i].accepts(spec));
            }
            if j < i {
                assert(!self.executors@[j].accepts(spec));
            }
        }
    }
}

} // verus!
