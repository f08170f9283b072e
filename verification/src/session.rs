//! The pipeline session: one run of the compute round trip as a strictly
//! linear state machine.  The unverified shell performs the driver calls —
//! adapter and device requests, resource creation, submission, the map
//! request — and reports each outcome here; this machine decides what may
//! happen next, constructs every error, and owns the map lifecycle: the
//! mapped bytes can be read only after the completion notification has fired
//! with success, the decoded value is copied out before the buffer is
//! unmapped, and a failed run never exposes a Result.

use vstd::prelude::*;
use crate::codec::{le_u32, decode_result};
use crate::commands::{CommandSequence, encode, encoded};
use crate::errors::{Error, gpu_error};

verus! {

/// Where a run stands in the strictly linear pipeline.
#[derive(Clone, Copy, PartialEq, Eq, Structural, Debug)]
pub enum Stage {
    /// No adapter has been acquired yet.
    Negotiating,
    /// A compute-capable adapter was found and its name recorded.
    AdapterReady,
    /// The logical device and queue were granted.
    DeviceReady,
    /// Kernel compiled, buffers allocated, bind group created.
    ResourcesReady,
    /// The command sequence has been recorded.
    Encoded,
    /// The command sequence was handed to the queue.
    Submitted,
    /// The map-for-read request is outstanding; the host waits for its
    /// completion notification.
    MapPending,
    /// The completion fired with success; the host may read the mapped view.
    Mapped,
    /// The Result has been copied out of the mapped view.
    ResultRead,
    /// The buffer is unmapped again; the Result is final.
    Finished,
    /// A terminal failure; the run reports an error and no Result.
    Failed,
}

/// One run of the pipeline.
pub struct Session {
    stage: Stage,
    adapter_name: Option<String>,
    result: Option<u32>,
    error: Option<Error>,
    completion_fired: bool,
    mapped_bytes: Ghost<Seq<u8>>,
}

impl Session {
    /// Where the run stands.
    pub closed spec fn stage_of(self) -> Stage {
        self.stage
    }

    /// The selected adapter's human-readable name, once one was found.
    pub closed spec fn adapter_of(self) -> Option<Seq<char>> {
        match self.adapter_name {
            Some(n) => Some(n@),
            None => None,
        }
    }

    /// The Result, present exactly once it has been copied out of the mapped
    /// view.
    pub closed spec fn result_of(self) -> Option<u32> {
        self.result
    }

    /// The terminal error, present exactly when the run has failed.
    pub closed spec fn error_of(self) -> Option<Error> {
        self.error
    }

    /// Whether the map-completion notification has fired.
    pub closed spec fn completion_fired_of(self) -> bool {
        self.completion_fired
    }

    /// The bytes the device wrote, as read from the mapped view.
    pub closed spec fn mapped_of(self) -> Seq<u8> {
        self.mapped_bytes@
    }

    /// The invariant every operation preserves.  A Result exists exactly once
    /// the mapped view has been decoded, and is then the little-endian
    /// reading of the mapped bytes; an error exists exactly on failure; the
    /// mapped states are reachable only after the completion notification
    /// fired, and the notification fires only once the run was waiting on it.
    pub closed spec fn wf(self) -> bool {
        &&& (self.result is Some <==> (self.stage is ResultRead || self.stage is Finished))
        &&& ((self.stage is ResultRead || self.stage is Finished) ==> {
            &&& self.mapped_bytes@.len() == 4
            &&& self.result matches Some(v) && v == le_u32(self.mapped_bytes@)
        })
        &&& (self.error is Some <==> self.stage is Failed)
        &&& ((self.stage is Mapped || self.stage is ResultRead || self.stage is Finished)
            ==> self.completion_fired)
        &&& (self.completion_fired ==> (self.stage is Mapped || self.stage is ResultRead
            || self.stage is Finished || self.stage is Failed))
        &&& ((self.stage is AdapterReady || self.stage is DeviceReady
            || self.stage is ResourcesReady || self.stage is Encoded
            || self.stage is Submitted || self.stage is MapPending
            || self.stage is Mapped || self.stage is ResultRead
            || self.stage is Finished) ==> self.adapter_name is Some)
    }

    /// Begins a run: device negotiation has not happened yet.
    pub fn new() -> (s: Session)
        ensures
            s.wf(),
            s.stage_of() is Negotiating,
            !s.completion_fired_of(),
            s.result_of() is None,
            s.error_of() is None,
    {
        Session {
            stage: Stage::Negotiating,
            adapter_name: None,
            result: None,
            error: None,
            completion_fired: false,
            mapped_bytes: Ghost(Seq::empty()),
        }
    }

    /// Where the run stands, for unverified callers that must check before
    /// calling.
    pub fn stage(&self) -> (st: Stage)
        ensures
            st == self.stage_of(),
    {
        self.stage
    }

    /// Outcome of the adapter request: the chosen adapter's human-readable
    /// name, or `None` when no compatible adapter exists — then the run fails
    /// with `no adapter found`.
    pub fn adapter_result(&mut self, name: Option<String>) -> (r: Result<(), Error>)
        requires
            old(self).wf(),
            old(self).stage_of() is Negotiating,
        ensures
            final(self).wf(),
            name matches Some(n) ==> {
                &&& r is Ok
                &&& final(self).stage_of() is AdapterReady
                &&& final(self).adapter_of() == Some(n@)
            },
            name is None ==> {
                &&& final(self).stage_of() is Failed
                &&& r matches Err(e) && e.spec_message() == "no adapter found"@
                &&& final(self).error_of() matches Some(e) && e.spec_message()
                    == "no adapter found"@
            },
            final(self).result_of() is None,
            !final(self).completion_fired_of(),
    {
        match name {
            Some(n) => {
                self.adapter_name = Some(n);
                self.stage = Stage::AdapterReady;
                Ok(())
            },
            None => {
                self.error = Some(gpu_error("no adapter found"));
                self.stage = Stage::Failed;
                Err(gpu_error("no adapter found"))
            },
        }
    }

    /// The selected adapter's name, for the observability line.
    pub fn adapter_name(&self) -> (n: &String)
        requires
            self.adapter_of() is Some,
        ensures
            Some(n@) == self.adapter_of(),
    {
        match &self.adapter_name {
            Some(n) => n,
            None => unreached(),
        }
    }

    /// Outcome of the device request on the chosen adapter: `Ok` when a
    /// logical device and queue were granted, the driver's reason otherwise —
    /// then the run fails with that reason as its message.
    pub fn device_result(&mut self, outcome: Result<(), String>) -> (r: Result<(), Error>)
        requires
            old(self).wf(),
            old(self).stage_of() is AdapterReady,
        ensures
            final(self).wf(),
            outcome is Ok ==> r is Ok && final(self).stage_of() is DeviceReady,
            outcome matches Err(m) ==> {
                &&& final(self).stage_of() is Failed
                &&& r matches Err(e) && e.spec_message() == m@
                &&& final(self).error_of() matches Some(e) && e.spec_message() == m@
            },
            final(self).adapter_of() == old(self).adapter_of(),
            final(self).result_of() is None,
            !final(self).completion_fired_of(),
    {
        match outcome {
            Ok(()) => {
                self.stage = Stage::DeviceReady;
                Ok(())
            },
            Err(m) => {
                self.error = Some(gpu_error(m.as_str()));
                self.stage = Stage::Failed;
                Err(Error::GpuError(m))
            },
        }
    }

    /// Outcome of the resource builder: `Ok` when the kernel compiled and the
    /// buffers, pipeline and bind group were created, the compiler's or
    /// device's diagnostics otherwise — then the run fails with that message.
    pub fn resources_result(&mut self, outcome: Result<(), String>) -> (r: Result<(), Error>)
        requires
            old(self).wf(),
            old(self).stage_of() is DeviceReady,
        ensures
            final(self).wf(),
            outcome is Ok ==> r is Ok && final(self).stage_of() is ResourcesReady,
            outcome matches Err(m) ==> {
                &&& final(self).stage_of() is Failed
                &&& r matches Err(e) && e.spec_message() == m@
                &&& final(self).error_of() matches Some(e) && e.spec_message() == m@
            },
            final(self).adapter_of() == old(self).adapter_of(),
            final(self).result_of() is None,
            !final(self).completion_fired_of(),
    {
        match outcome {
            Ok(()) => {
                self.stage = Stage::ResourcesReady;
                Ok(())
            },
            Err(m) => {
                self.error = Some(gpu_error(m.as_str()));
                self.stage = Stage::Failed;
                Err(Error::GpuError(m))
            },
        }
    }

    /// Records the dispatch encoder's command sequence.  No device work
    /// happens yet; the sequence is consumed by the following submission.
    pub fn record(&mut self) -> (cs: CommandSequence)
        requires
            old(self).wf(),
            old(self).stage_of() is ResourcesReady,
        ensures
            final(self).wf(),
            final(self).stage_of() is Encoded,
            cs@ == encoded(),
            final(self).adapter_of() == old(self).adapter_of(),
            final(self).result_of() is None,
            !final(self).completion_fired_of(),
    {
        self.stage = Stage::Encoded;
        encode()
    }

    /// The recorded command sequence has been handed to the queue.
    pub fn submitted(&mut self)
        requires
            old(self).wf(),
            old(self).stage_of() is Encoded,
        ensures
            final(self).wf(),
            final(self).stage_of() is Submitted,
            final(self).adapter_of() == old(self).adapter_of(),
            final(self).result_of() is None,
            !final(self).completion_fired_of(),
    {
        self.stage = Stage::Submitted;
    }

    /// The asynchronous map-for-read request has been made; the run now
    /// waits for its one completion notification.
    pub fn map_requested(&mut self)
        requires
            old(self).wf(),
            old(self).stage_of() is Submitted,
        ensures
            final(self).wf(),
            final(self).stage_of() is MapPending,
            final(self).adapter_of() == old(self).adapter_of(),
            final(self).result_of() is None,
            !final(self).completion_fired_of(),
    {
        self.stage = Stage::MapPending;
    }

    /// Delivers what the wait on the map-completion notification resolved to:
    /// `None` when the notification channel failed — then the run fails with
    /// `failed to run shader on GPU` — an explicit failure payload, or
    /// success, after which the mapped view may be read.  The notification is
    /// accepted exactly once: only a waiting run can take it, and it leaves
    /// the waiting stage.
    pub fn completion(&mut self, outcome: Option<Result<(), String>>) -> (r: Result<(), Error>)
        requires
            old(self).wf(),
            old(self).stage_of() is MapPending,
        ensures
            final(self).wf(),
            !old(self).completion_fired_of(),
            final(self).completion_fired_of(),
            match outcome {
                Some(o) => match o {
                    Ok(_) => {
                        &&& r is Ok
                        &&& final(self).stage_of() is Mapped
                    },
                    Err(m) => {
                        &&& final(self).stage_of() is Failed
                        &&& r matches Err(e) && e.spec_message() == m@
                        &&& final(self).error_of() matches Some(e) && e.spec_message() == m@
                    },
                },
                None => {
                    &&& final(self).stage_of() is Failed
                    &&& r matches Err(e) && e.spec_message() == "failed to run shader on GPU"@
                    &&& final(self).error_of() matches Some(e) && e.spec_message()
                        == "failed to run shader on GPU"@
                },
            },
            final(self).adapter_of() == old(self).adapter_of(),
            final(self).result_of() is None,
    {
        self.completion_fired = true;
        match outcome {
            Some(o) => match o {
                Ok(()) => {
                    self.stage = Stage::Mapped;
                    Ok(())
                },
                Err(m) => {
                    self.error = Some(gpu_error(m.as_str()));
                    self.stage = Stage::Failed;
                    Err(Error::GpuError(m))
                },
            },
            None => {
                self.error = Some(gpu_error("failed to run shader on GPU"));
                self.stage = Stage::Failed;
                Err(gpu_error("failed to run shader on GPU"))
            },
        }
    }

    /// Decodes the mapped view's four bytes as the little-endian scalar
    /// Result and copies it out; the view itself may then be dropped.
    /// Readable only in the mapped state, which only a successful completion
    /// reaches.
    pub fn read_mapped(&mut self, bytes: &Vec<u8>) -> (r: u32)
        requires
            old(self).wf(),
            old(self).stage_of() is Mapped,
            bytes@.len() == 4,
        ensures
            final(self).wf(),
            final(self).stage_of() is ResultRead,
            r == le_u32(bytes@),
            final(self).result_of() == Some(r),
            final(self).mapped_of() == bytes@,
            final(self).adapter_of() == old(self).adapter_of(),
    {
        let r = decode_result(bytes);
        self.result = Some(r);
        self.mapped_bytes = Ghost(bytes@);
        self.stage = Stage::ResultRead;
        r
    }

    /// Returns the host-visible buffer to the unmapped state; legal only
    /// after the decoded value has been copied out, so unmapping never
    /// invalidates a view still in use.
    pub fn unmapped(&mut self)
        requires
            old(self).wf(),
            old(self).stage_of() is ResultRead,
        ensures
            final(self).wf(),
            final(self).stage_of() is Finished,
            final(self).result_of() == old(self).result_of(),
            final(self).mapped_of() == old(self).mapped_of(),
            final(self).adapter_of() == old(self).adapter_of(),
    {
        self.stage = Stage::Finished;
    }

    /// The Result of a finished run.
    pub fn result(&self) -> (r: u32)
        requires
            self.wf(),
            self.stage_of() is Finished,
        ensures
            self.result_of() == Some(r),
            r == le_u32(self.mapped_of()),
    {
        match &self.result {
            Some(v) => *v,
            None => unreached(),
        }
    }
}

/// Determinism: the Result is a function of the bytes the device wrote; two
/// finished runs that mapped the same bytes report the same Result.
pub proof fn lemma_deterministic_result(a: Session, b: Session)
    requires
        a.wf(),
        b.wf(),
        a.stage_of() is Finished,
        b.stage_of() is Finished,
        a.mapped_of() == b.mapped_of(),
    ensures
        a.result_of() == b.result_of(),
{
}

/// Map lifecycle: the mapped state — the only one whose contents may be read
/// — is reachable only after the completion notification has fired.
pub proof fn lemma_read_only_after_completion(s: Session)
    requires
        s.wf(),
        s.stage_of() is Mapped,
    ensures
        s.completion_fired_of(),
{
}

/// Failure propagation: a failed run exposes no Result.
pub proof fn lemma_failed_run_has_no_result(s: Session)
    requires
        s.wf(),
        s.stage_of() is Failed,
    ensures
        s.result_of() is None,
{
}

/// Single completion: once the notification has fired, the run is never
/// again waiting on it, so it cannot be delivered a second time.
pub proof fn lemma_completion_accepted_once(s: Session)
    requires
        s.wf(),
        s.completion_fired_of(),
    ensures
        !(s.stage_of() is MapPending),
{
}

} // verus!
