//! Commit construction: payload, parent linkage, and the signed and
//! unsigned paths.
//!
//! A commit payload links the tree written from the index to at most one
//! parent — the current branch tip, absent in a fresh repository — and
//! carries the accepted message. The unsigned path installs the payload
//! directly; the signed path first has the serialized payload detached-signed
//! by an external signer, keeps the returned signature alongside the payload
//! it signed, and only then may the branch reference advance. The engine
//! calls themselves — writing the tree, resolving the tip, installing the
//! object, moving the reference — are performed by the unverified shell,
//! which feeds their results back into these functions.

use vstd::prelude::*;

use crate::text::views_of;
use crate::text::push_all;

verus! {

/// The data a commit object is built from: tree, at most one parent, and
/// the final message.
pub struct CommitPayload {
    /// Identifier of the tree object written from the index.
    pub tree: Vec<u8>,
    /// Identifiers of the parent commits: empty in a fresh repository,
    /// otherwise exactly the current branch tip.
    pub parents: Vec<Vec<u8>>,
    /// The accepted commit message.
    pub message: Vec<u8>,
}

/// A commit never links more than one parent: history is linear.
pub open spec fn payload_well_formed(p: &CommitPayload) -> bool {
    p.parents@.len() <= 1
}

/// Build the payload for a commit of `message` on top of `tip`.
///
/// A repository with no commits yet supplies no tip, and the payload then
/// has zero parents; otherwise the tip is the sole parent.
pub fn make_payload(tree: Vec<u8>, tip: Option<Vec<u8>>, message: Vec<u8>) -> (p: CommitPayload)
    ensures
        p.tree == tree,
        p.message == message,
        tip matches Some(t) ==> views_of(p.parents@) =~= seq![t@],
        tip is None ==> p.parents@.len() == 0,
        payload_well_formed(&p),
{
    let mut parents: Vec<Vec<u8>> = Vec::new();
    match tip {
        Some(t) => {
            parents.push(t);
        },
        None => {},
    }
    CommitPayload { tree, parents, message }
}

/// A finished commit object: either bare, or carrying the detached
/// signature stored alongside — never inline — the unsigned payload.
pub enum CommitRecord {
    /// The unsigned path: no signature is attached.
    Unsigned { payload: CommitPayload },
    /// The signed path: the payload exactly as it was serialized and
    /// handed to the signer, with the signature the signer returned.
    Signed { payload: CommitPayload, signature: Vec<u8> },
}

impl CommitRecord {
    /// Whether a signature is attached.
    pub open spec fn has_signature(&self) -> bool {
        self matches CommitRecord::Signed { .. }
    }
}

/// Failure of the external signing step. The diagnostic holds the signer's
/// error stream verbatim.
pub enum CommitError {
    SigningFailed { diagnostic: Vec<u8> },
}

/// The fixed prefix of the signing-failure report.
pub open spec fn signing_failed_prefix() -> Seq<u8> {
    seq![71u8, 80, 71, 32, 115, 105, 103, 110, 105, 110, 103, 32, 102, 97, 105, 108, 101, 100,
        58, 32]
}

impl CommitError {
    /// The diagnostic line shown to the user: a fixed prefix, then the
    /// signer's error stream verbatim.
    pub fn report(&self) -> (r: Vec<u8>)
        ensures
            self matches CommitError::SigningFailed { diagnostic } ==> r@ == signing_failed_prefix()
                + diagnostic@,
    {
        let mut out: Vec<u8> = vec![71u8, 80, 71, 32, 115, 105, 103, 110, 105, 110, 103, 32, 102,
            97, 105, 108, 101, 100, 58, 32];
        proof {
            assert(out@ =~= signing_failed_prefix());
        }
        match self {
            CommitError::SigningFailed { diagnostic } => {
                push_all(&mut out, diagnostic.as_slice());
            },
        }
        out
    }
}

/// `--armor`
pub open spec fn armor_flag() -> Seq<u8> {
    seq![45u8, 45, 97, 114, 109, 111, 114]
}

/// `--detach-sign`
pub open spec fn detach_sign_flag() -> Seq<u8> {
    seq![45u8, 45, 100, 101, 116, 97, 99, 104, 45, 115, 105, 103, 110]
}

/// `--local-user`
pub open spec fn local_user_flag() -> Seq<u8> {
    seq![45u8, 45, 108, 111, 99, 97, 108, 45, 117, 115, 101, 114]
}

/// The arguments the external signer is invoked with: always a detached,
/// armored signature; constrained to a named signing identity only when one
/// was configured.
pub fn gpg_sign_args(key: &Option<Vec<u8>>) -> (args: Vec<Vec<u8>>)
    ensures
        key is None ==> views_of(args@) =~= seq![armor_flag(), detach_sign_flag()],
        key matches Some(k) ==> views_of(args@) =~= seq![
            armor_flag(),
            detach_sign_flag(),
            local_user_flag(),
            k@,
        ],
{
    let mut args: Vec<Vec<u8>> = Vec::new();
    let armor: Vec<u8> = vec![45u8, 45, 97, 114, 109, 111, 114];
    let detach: Vec<u8> = vec![45u8, 45, 100, 101, 116, 97, 99, 104, 45, 115, 105, 103, 110];
    proof {
        assert(armor@ =~= armor_flag());
        assert(detach@ =~= detach_sign_flag());
    }
    args.push(armor);
    args.push(detach);
    match key {
        Some(k) => {
            let local: Vec<u8> = vec![45u8, 45, 108, 111, 99, 97, 108, 45, 117, 115, 101, 114];
            proof {
                assert(local@ =~= local_user_flag());
            }
            args.push(local);
            let mut kk: Vec<u8> = Vec::new();
            push_all(&mut kk, k.as_slice());
            args.push(kk);
        },
        None => {},
    }
    args
}

/// The configured signing identity: an empty setting means none.
pub fn signing_identity(key: Vec<u8>) -> (r: Option<Vec<u8>>)
    ensures
        key@.len() == 0 ==> r is None,
        key@.len() > 0 ==> (r matches Some(k) && k == key),
{
    if key.len() == 0 {
        None
    } else {
        Some(key)
    }
}

/// How the commit will be installed, chosen by configuration.
pub enum CommitPlan {
    /// Install the payload directly, unsigned.
    Direct { payload: CommitPayload },
    /// Serialize the payload, have it detached-signed with these signer
    /// arguments, then install payload and signature together.
    Sign { payload: CommitPayload, sign_args: Vec<Vec<u8>> },
}

/// Choose the commit path and assemble everything it needs.
pub fn plan_commit(
    gpgsign: bool,
    signkey: Option<Vec<u8>>,
    tree: Vec<u8>,
    tip: Option<Vec<u8>>,
    message: Vec<u8>,
) -> (plan: CommitPlan)
    ensures
        ({
            let p = match plan {
                CommitPlan::Direct { payload } => payload,
                CommitPlan::Sign { payload, .. } => payload,
            };
            &&& p.tree == tree
            &&& p.message == message
            &&& (tip matches Some(t) ==> views_of(p.parents@) =~= seq![t@])
            &&& (tip is None ==> p.parents@.len() == 0)
            &&& payload_well_formed(&p)
        }),
        !gpgsign ==> plan matches CommitPlan::Direct { .. },
        gpgsign ==> plan matches CommitPlan::Sign { .. },
        plan matches CommitPlan::Sign { sign_args, .. } ==> {
            &&& (signkey is None ==> views_of(sign_args@) =~= seq![
                armor_flag(),
                detach_sign_flag(),
            ])
            &&& (signkey matches Some(k) ==> views_of(sign_args@) =~= seq![
                armor_flag(),
                detach_sign_flag(),
                local_user_flag(),
                k@,
            ])
        },
{
    let payload = make_payload(tree, tip, message);
    if gpgsign {
        let sign_args = gpg_sign_args(&signkey);
        CommitPlan::Sign { payload, sign_args }
    } else {
        CommitPlan::Direct { payload }
    }
}

/// Finish the unsigned path: the record carries the payload and nothing
/// else — an unsigned commit has no signature attached.
pub fn finish_unsigned(payload: CommitPayload) -> (r: CommitRecord)
    ensures
        r matches CommitRecord::Unsigned { payload: p } && p == payload,
        !r.has_signature(),
{
    CommitRecord::Unsigned { payload }
}

/// Finish the signed path from the signer's outcome.
///
/// On success the record stores the signer's output as the signature,
/// alongside the very payload that was signed. On failure the attempt is
/// fatal and the signer's error stream is preserved verbatim.
pub fn finish_signed(
    payload: CommitPayload,
    signer_ok: bool,
    signer_out: Vec<u8>,
    signer_err: Vec<u8>,
) -> (r: Result<CommitRecord, CommitError>)
    ensures
        signer_ok ==> (r matches Ok(rec) && rec matches CommitRecord::Signed {
            payload: p,
            signature,
        } && p == payload && signature == signer_out),
        !signer_ok ==> (r matches Err(e) && e matches CommitError::SigningFailed { diagnostic }
            && diagnostic == signer_err),
{
    if signer_ok {
        Ok(CommitRecord::Signed { payload, signature: signer_out })
    } else {
        Err(CommitError::SigningFailed { diagnostic: signer_err })
    }
}

/// Installation of a finished commit: the branch reference may advance only
/// after the commit object is durably written.
pub enum Installation {
    /// The commit object is being written; the reference has not moved.
    AwaitObject { record: CommitRecord },
    /// The object is written under `oid`; the reference move is pending.
    AwaitRef { record: CommitRecord, oid: Vec<u8> },
    /// The reference points at `oid`.
    Done { record: CommitRecord, oid: Vec<u8> },
}

/// Start installing a finished commit.
pub fn begin_install(record: CommitRecord) -> (st: Installation)
    ensures
        st matches Installation::AwaitObject { record: rec } && rec == record,
{
    Installation::AwaitObject { record }
}

/// The engine reports the commit object written under `oid`. Only now does
/// a reference move become available.
pub fn object_written(st: Installation, oid: Vec<u8>) -> (r: Installation)
    requires
        st matches Installation::AwaitObject { .. },
    ensures
        r matches Installation::AwaitRef { record, oid: o } && o == oid && (st
            matches Installation::AwaitObject { record: rec } && rec == record),
{
    match st {
        Installation::AwaitObject { record } => Installation::AwaitRef { record, oid },
        _ => unreached(),
    }
}

/// The engine reports the branch reference moved.
pub fn reference_updated(st: Installation) -> (r: Installation)
    requires
        st matches Installation::AwaitRef { .. },
    ensures
        r matches Installation::Done { record, oid } && (st matches Installation::AwaitRef {
            record: rec,
            oid: o,
        } && rec == record && o == oid),
{
    match st {
        Installation::AwaitRef { record, oid } => Installation::Done { record, oid },
        _ => unreached(),
    }
}

} // verus!
