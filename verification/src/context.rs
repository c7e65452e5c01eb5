//! The per-request execution context.
//!
//! One context is created per incoming request and owns the guest's
//! capability table together with the two bounded sinks that capture the
//! guest's diagnostic streams.  It is never shared between requests: the
//! captured output of one context is invisible to every other.  Teardown
//! consumes the context and surfaces the captured output exactly once.

use vstd::prelude::*;

use crate::errors::BridgeError;
use crate::policy::CapabilityTable;

verus! {

/// The diagnostic output drained from a context at teardown.
pub struct CapturedOutput {
    pub stdout: String,
    pub stderr: String,
}

/// Per-request execution state: the capability table and the captured
/// diagnostic streams.  Owned exclusively by one in-flight request.
pub struct ExecutionContext {
    table: CapabilityTable,
    stdout: String,
    stderr: String,
}

impl ExecutionContext {
    /// What the guest of this context may touch.
    pub closed spec fn spec_table(&self) -> CapabilityTable {
        self.table
    }

    /// What the guest of this context may touch.
    pub fn table(&self) -> (t: &CapabilityTable)
        ensures
            *t == self.spec_table(),
    {
        &self.table
    }

    /// The characters captured so far from the guest's stdout.
    pub closed spec fn stdout_captured(&self) -> Seq<char> {
        self.stdout@
    }

    /// The characters captured so far from the guest's stderr.
    pub closed spec fn stderr_captured(&self) -> Seq<char> {
        self.stderr@
    }

    /// Both captured streams stay within the table's bound.
    pub open spec fn wf(&self) -> bool {
        self.stdout_captured().len() <= self.spec_table().capture_limit
            && self.stderr_captured().len() <= self.spec_table().capture_limit
    }

    /// Builds the context for one request: the capability table is bound,
    /// the capture sinks start empty.  `root_open` is what probing the
    /// table's filesystem root under its permission mode reported; a root
    /// that cannot be opened is a configuration error, surfaced before any
    /// guest code runs.
    pub fn new(table: CapabilityTable, root_open: bool) -> (r: Result<ExecutionContext, BridgeError>)
        ensures
            match r {
                Ok(context) => root_open && context.spec_table() == table && context.wf()
                    && context.stdout_captured() =~= Seq::<char>::empty()
                    && context.stderr_captured() =~= Seq::<char>::empty(),
                Err(e) => !root_open && e == BridgeError::Configuration,
            },
    {
        if root_open {
            Ok(ExecutionContext { table, stdout: String::new(), stderr: String::new() })
        } else {
            Err(BridgeError::Configuration)
        }
    }

    /// Appends one chunk of the guest's stdout to the capture sink.  A chunk
    /// that would push the sink past its bound is refused whole, and the
    /// context is unchanged; nothing here touches the stderr sink or the
    /// table.
    pub fn write_stdout(&mut self, chunk: &str) -> (accepted: bool)
        requires
            old(self).wf(),
        ensures
            final(self).wf(),
            final(self).spec_table() == old(self).spec_table(),
            final(self).stderr_captured() == old(self).stderr_captured(),
            accepted == (old(self).stdout_captured().len() + chunk@.len()
                <= old(self).spec_table().capture_limit),
            accepted ==> final(self).stdout_captured() == old(self).stdout_captured() + chunk@,
            !accepted ==> final(self).stdout_captured() == old(self).stdout_captured(),
    {
        let current = self.stdout.as_str().unicode_len();
        let incoming = chunk.unicode_len();
        if incoming <= self.table.capture_limit && current <= self.table.capture_limit - incoming {
            self.stdout.append(chunk);
            true
        } else {
            false
        }
    }

    /// Appends one chunk of the guest's stderr to the capture sink, under
    /// the same bound; nothing here touches the stdout sink or the table.
    pub fn write_stderr(&mut self, chunk: &str) -> (accepted: bool)
        requires
            old(self).wf(),
        ensures
            final(self).wf(),
            final(self).spec_table() == old(self).spec_table(),
            final(self).stdout_captured() == old(self).stdout_captured(),
            accepted == (old(self).stderr_captured().len() + chunk@.len()
                <= old(self).spec_table().capture_limit),
            accepted ==> final(self).stderr_captured() == old(self).stderr_captured() + chunk@,
            !accepted ==> final(self).stderr_captured() == old(self).stderr_captured(),
    {
        let current = self.stderr.as_str().unicode_len();
        let incoming = chunk.unicode_len();
        if incoming <= self.table.capture_limit && current <= self.table.capture_limit - incoming {
            self.stderr.append(chunk);
            true
        } else {
            false
        }
    }

    /// Tears the context down, draining the captured diagnostics exactly
    /// once: consuming the context is the one way to read the sinks, and
    /// after it nothing of the request's state remains.
    pub fn teardown(self) -> (captured: CapturedOutput)
        ensures
            captured.stdout@ == self.stdout_captured(),
            captured.stderr@ == self.stderr_captured(),
    {
        CapturedOutput { stdout: self.stdout, stderr: self.stderr }
    }
}

} // verus!
