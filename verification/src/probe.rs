//! The signature probe: walk context -> package manager -> package info ->
//! signatures[0] -> hashCode and return the hash, or a sentinel when no
//! signature is available.
//!
//! The probe is a step machine.  Each undecided state names exactly one
//! request to the host bridge; the unverified boundary performs the request
//! and feeds back what the host answered.  Every decision -- which hop comes
//! next, when the walk is over, and what integer crosses the boundary -- is
//! taken here.  Host handles never enter this module: only the shape of each
//! answer does, so no host reference can escape through the probe's result.

use crate::records::{LogLevel, LogRecord};
use vstd::prelude::*;
use vstd::string::StringExecFns;

verus! {

/// The package-query flag that asks the host to include signing certificates.
pub const GET_SIGNATURES: i32 = 64;

/// The sentinel returned when no signature is available or the host raises an
/// exception anywhere along the walk.
pub const NO_SIGNATURE: i32 = -1;

/// The probe's position along the walk.  Each undecided state is about to
/// issue one bridge request; `Done` holds the decided result.
#[derive(Clone, Copy, PartialEq, Eq, Structural, Debug)]
pub enum ProbeState {
    /// About to request the package manager from the context.
    AtPackageManager,
    /// About to request the package name from the context.
    AtPackageName,
    /// About to request the package info from the package manager.
    AtPackageInfo,
    /// About to read the signatures field from the package info.
    AtSignatures,
    /// About to read the length of the signatures array.
    AtSignatureCount,
    /// About to fetch the first entry of the signatures array.
    AtFirstSignature,
    /// About to call hashCode on the first signature.
    AtSignatureHash,
    /// The probe's integer result is decided.
    Done(i32),
}

/// What the host handed back for one bridge request, after the boundary has
/// cleared any pending host error.
#[derive(Clone, Copy, PartialEq, Eq, Structural, Debug)]
pub enum HostEvent {
    /// An object-valued request returned; the object may be null.
    Object { null: bool },
    /// The array-length request returned.
    Count(i32),
    /// An integer-valued request returned.
    Int(i32),
    /// The host raised an exception.
    Failed,
}

/// The probe's transition: from a state and the host's answer to the next
/// state.  A host failure, an answer of the wrong shape, an empty signatures
/// array and a null first signature all decide the walk with the sentinel;
/// the hash-code answer decides it with the reported hash; a decided state
/// never changes.
pub open spec fn probe_next(s: ProbeState, e: HostEvent) -> ProbeState {
    match s {
        ProbeState::AtPackageManager => match e {
            HostEvent::Object { .. } => ProbeState::AtPackageName,
            _ => ProbeState::Done(NO_SIGNATURE),
        },
        ProbeState::AtPackageName => match e {
            HostEvent::Object { .. } => ProbeState::AtPackageInfo,
            _ => ProbeState::Done(NO_SIGNATURE),
        },
        ProbeState::AtPackageInfo => match e {
            HostEvent::Object { .. } => ProbeState::AtSignatures,
            _ => ProbeState::Done(NO_SIGNATURE),
        },
        ProbeState::AtSignatures => match e {
            HostEvent::Object { .. } => ProbeState::AtSignatureCount,
            _ => ProbeState::Done(NO_SIGNATURE),
        },
        ProbeState::AtSignatureCount => match e {
            HostEvent::Count(n) => if n <= 0 {
                ProbeState::Done(NO_SIGNATURE)
            } else {
                ProbeState::AtFirstSignature
            },
            _ => ProbeState::Done(NO_SIGNATURE),
        },
        ProbeState::AtFirstSignature => match e {
            HostEvent::Object { null } => if null {
                ProbeState::Done(NO_SIGNATURE)
            } else {
                ProbeState::AtSignatureHash
            },
            _ => ProbeState::Done(NO_SIGNATURE),
        },
        ProbeState::AtSignatureHash => match e {
            HostEvent::Int(h) => ProbeState::Done(h),
            _ => ProbeState::Done(NO_SIGNATURE),
        },
        ProbeState::Done(v) => ProbeState::Done(v),
    }
}

/// Which host-bridge operation a request asks for.
#[derive(Clone, Copy, PartialEq, Eq, Structural, Debug)]
pub enum BridgeCall {
    /// Invoke an object-valued method by signature descriptor.
    ObjectMethod,
    /// Invoke an integer-valued method by signature descriptor.
    IntMethod,
    /// Read an object-valued field by signature descriptor.
    ObjectField,
    /// Read an object array's length.
    ArrayLength,
    /// Index an object array.
    ArrayElement,
}

/// A handle the boundary has obtained earlier in the walk and may name as a
/// receiver or an argument.  Handles live only for the enclosing call frame.
#[derive(Clone, Copy, PartialEq, Eq, Structural, Debug)]
pub enum ProbeHandle {
    Context,
    PackageManager,
    PackageName,
    PackageInfo,
    Signatures,
    FirstSignature,
}

/// One fully-determined request to the host bridge: the operation, the handle
/// to perform it on, the member name and signature descriptor (empty for the
/// array operations, which name no member), and the arguments, if any.
#[derive(Clone, Copy, Debug)]
pub struct BridgeRequest {
    pub kind: BridgeCall,
    pub receiver: ProbeHandle,
    pub member: &'static str,
    pub descriptor: &'static str,
    pub object_arg: Option<ProbeHandle>,
    pub int_arg: Option<i32>,
}

/// The request each probe state issues; a decided probe issues none.
pub open spec fn request_matches(s: ProbeState, r: Option<BridgeRequest>) -> bool {
    match s {
        ProbeState::AtPackageManager => r matches Some(q) && q.kind == BridgeCall::ObjectMethod
            && q.receiver == ProbeHandle::Context && q.member@ == "getPackageManager"@
            && q.descriptor@ == "()Landroid/content/pm/PackageManager;"@ && q.object_arg is None
            && q.int_arg is None,
        ProbeState::AtPackageName => r matches Some(q) && q.kind == BridgeCall::ObjectMethod
            && q.receiver == ProbeHandle::Context && q.member@ == "getPackageName"@
            && q.descriptor@ == "()Ljava/lang/String;"@ && q.object_arg is None
            && q.int_arg is None,
        ProbeState::AtPackageInfo => r matches Some(q) && q.kind == BridgeCall::ObjectMethod
            && q.receiver == ProbeHandle::PackageManager && q.member@ == "getPackageInfo"@
            && q.descriptor@ == "(Ljava/lang/String;I)Landroid/content/pm/PackageInfo;"@
            && q.object_arg == Some(ProbeHandle::PackageName) && q.int_arg == Some(GET_SIGNATURES),
        ProbeState::AtSignatures => r matches Some(q) && q.kind == BridgeCall::ObjectField
            && q.receiver == ProbeHandle::PackageInfo && q.member@ == "signatures"@
            && q.descriptor@ == "[Landroid/content/pm/Signature;"@ && q.object_arg is None
            && q.int_arg is None,
        ProbeState::AtSignatureCount => r matches Some(q) && q.kind == BridgeCall::ArrayLength
            && q.receiver == ProbeHandle::Signatures && q.member@ == ""@ && q.descriptor@ == ""@
            && q.object_arg is None && q.int_arg is None,
        ProbeState::AtFirstSignature => r matches Some(q) && q.kind == BridgeCall::ArrayElement
            && q.receiver == ProbeHandle::Signatures && q.member@ == ""@ && q.descriptor@ == ""@
            && q.object_arg is None && q.int_arg == Some(0i32),
        ProbeState::AtSignatureHash => r matches Some(q) && q.kind == BridgeCall::IntMethod
            && q.receiver == ProbeHandle::FirstSignature && q.member@ == "hashCode"@
            && q.descriptor@ == "()I"@ && q.object_arg is None && q.int_arg is None,
        ProbeState::Done(_) => r is None,
    }
}

/// The probe machine: one walk over the host bridge, driven by the boundary.
pub struct Probe {
    state: ProbeState,
}

impl View for Probe {
    type V = ProbeState;

    closed spec fn view(&self) -> ProbeState {
        self.state
    }
}

impl Probe {
    /// A fresh walk, about to ask the context for its package manager.
    pub fn new() -> (p: Probe)
        ensures
            p@ == ProbeState::AtPackageManager,
    {
        Probe { state: ProbeState::AtPackageManager }
    }

    /// The current state.
    pub fn state(&self) -> (s: ProbeState)
        ensures
            s == self@,
    {
        self.state
    }

    /// The request the probe wants performed next, or `None` once decided.
    pub fn next_request(&self) -> (r: Option<BridgeRequest>)
        ensures
            request_matches(self@, r),
    {
        match self.state {
            ProbeState::AtPackageManager => Some(BridgeRequest {
                kind: BridgeCall::ObjectMethod,
                receiver: ProbeHandle::Context,
                member: "getPackageManager",
                descriptor: "()Landroid/content/pm/PackageManager;",
                object_arg: None,
                int_arg: None,
            }),
            ProbeState::AtPackageName => Some(BridgeRequest {
                kind: BridgeCall::ObjectMethod,
                receiver: ProbeHandle::Context,
                member: "getPackageName",
                descriptor: "()Ljava/lang/String;",
                object_arg: None,
                int_arg: None,
            }),
            ProbeState::AtPackageInfo => Some(BridgeRequest {
                kind: BridgeCall::ObjectMethod,
                receiver: ProbeHandle::PackageManager,
                member: "getPackageInfo",
                descriptor: "(Ljava/lang/String;I)Landroid/content/pm/PackageInfo;",
                object_arg: Some(ProbeHandle::PackageName),
                int_arg: Some(GET_SIGNATURES),
            }),
            ProbeState::AtSignatures => Some(BridgeRequest {
                kind: BridgeCall::ObjectField,
                receiver: ProbeHandle::PackageInfo,
                member: "signatures",
                descriptor: "[Landroid/content/pm/Signature;",
                object_arg: None,
                int_arg: None,
            }),
            ProbeState::AtSignatureCount => Some(BridgeRequest {
                kind: BridgeCall::ArrayLength,
                receiver: ProbeHandle::Signatures,
                member: "",
                descriptor: "",
                object_arg: None,
                int_arg: None,
            }),
            ProbeState::AtFirstSignature => Some(BridgeRequest {
                kind: BridgeCall::ArrayElement,
                receiver: ProbeHandle::Signatures,
                member: "",
                descriptor: "",
                object_arg: None,
                int_arg: Some(0),
            }),
            ProbeState::AtSignatureHash => Some(BridgeRequest {
                kind: BridgeCall::IntMethod,
                receiver: ProbeHandle::FirstSignature,
                member: "hashCode",
                descriptor: "()I",
                object_arg: None,
                int_arg: None,
            }),
            ProbeState::Done(_) => None,
        }
    }

    /// Advance the walk by one host answer.
    pub fn step(&mut self, e: HostEvent)
        ensures
            final(self)@ == probe_next(old(self)@, e),
    {
        let next = match self.state {
            ProbeState::AtPackageManager => match e {
                HostEvent::Object { .. } => ProbeState::AtPackageName,
                _ => ProbeState::Done(NO_SIGNATURE),
            },
            ProbeState::AtPackageName => match e {
                HostEvent::Object { .. } => ProbeState::AtPackageInfo,
                _ => ProbeState::Done(NO_SIGNATURE),
            },
            ProbeState::AtPackageInfo => match e {
                HostEvent::Object { .. } => ProbeState::AtSignatures,
                _ => ProbeState::Done(NO_SIGNATURE),
            },
            ProbeState::AtSignatures => match e {
                HostEvent::Object { .. } => ProbeState::AtSignatureCount,
                _ => ProbeState::Done(NO_SIGNATURE),
            },
            ProbeState::AtSignatureCount => match e {
                HostEvent::Count(n) => if n <= 0 {
                    ProbeState::Done(NO_SIGNATURE)
                } else {
                    ProbeState::AtFirstSignature
                },
                _ => ProbeState::Done(NO_SIGNATURE),
            },
            ProbeState::AtFirstSignature => match e {
                HostEvent::Object { null } => if null {
                    ProbeState::Done(NO_SIGNATURE)
                } else {
                    ProbeState::AtSignatureHash
                },
                _ => ProbeState::Done(NO_SIGNATURE),
            },
            ProbeState::AtSignatureHash => match e {
                HostEvent::Int(h) => ProbeState::Done(h),
                _ => ProbeState::Done(NO_SIGNATURE),
            },
            ProbeState::Done(v) => ProbeState::Done(v),
        };
        self.state = next;
    }

    /// The decided result, or `None` while the walk is still under way.
    pub fn result(&self) -> (r: Option<i32>)
        ensures
            match self@ {
                ProbeState::Done(v) => r == Some(v),
                _ => r is None,
            },
    {
        match self.state {
            ProbeState::Done(v) => Some(v),
            _ => None,
        }
    }
}

/// The record the boundary logs on entry to the signature entry point.
pub fn probe_entry_record() -> (r: LogRecord)
    ensures
        r.level == LogLevel::Info,
        r.message@ == "Java_com_windcloud_plugin_mac_utils_ModifyMacUtils_getAppSignature"@,
{
    LogRecord {
        level: LogLevel::Info,
        message: String::from_str(
            "Java_com_windcloud_plugin_mac_utils_ModifyMacUtils_getAppSignature",
        ),
    }
}

/// Law: a host exception at any hop decides the probe with the sentinel, so
/// no exception ever crosses the boundary as anything but `-1`.
pub proof fn lemma_host_failure_yields_sentinel(s: ProbeState)
    requires
        !(s is Done),
    ensures
        probe_next(s, HostEvent::Failed) == ProbeState::Done(NO_SIGNATURE),
{
}

/// Law: a decided probe stays decided: no later event changes the result.
pub proof fn lemma_result_is_final(v: i32, e: HostEvent)
    ensures
        probe_next(ProbeState::Done(v), e) == ProbeState::Done(v),
{
}

/// Law: an empty signatures array decides the probe with the sentinel.
pub proof fn lemma_empty_signature_array_yields_sentinel()
    ensures
        probe_next(ProbeState::AtSignatureCount, HostEvent::Count(0)) == ProbeState::Done(
            NO_SIGNATURE,
        ),
{
}

/// Law: a null first signature decides the probe with the sentinel.
pub proof fn lemma_null_first_signature_yields_sentinel()
    ensures
        probe_next(ProbeState::AtFirstSignature, HostEvent::Object { null: true })
            == ProbeState::Done(NO_SIGNATURE),
{
}

/// Law: only the hash-code answer decides the probe with anything other than
/// the sentinel -- only that one primitive integer ever escapes the walk.
pub proof fn lemma_only_the_hash_escapes(s: ProbeState, e: HostEvent, v: i32)
    requires
        !(s is Done),
        probe_next(s, e) == ProbeState::Done(v),
        v != NO_SIGNATURE,
    ensures
        s == ProbeState::AtSignatureHash && e == HostEvent::Int(v),
{
}

/// Law: on a host that answers every request and holds a first signature, the
/// probe returns exactly the reported hash code.
pub proof fn lemma_successful_walk_returns_hash(n: i32, h: i32)
    requires
        n > 0,
    ensures
        ({
            let answered = HostEvent::Object { null: false };
            let s1 = probe_next(ProbeState::AtPackageManager, answered);
            let s2 = probe_next(s1, answered);
            let s3 = probe_next(s2, answered);
            let s4 = probe_next(s3, answered);
            let s5 = probe_next(s4, HostEvent::Count(n));
            let s6 = probe_next(s5, answered);
            probe_next(s6, HostEvent::Int(h)) == ProbeState::Done(h)
        }),
{
}

} // verus!
