//! Finding the numeric identifier of a family by its name.
//!
//! Families register with the kernel under a name and are given a number when
//! they do. Every message to a family is addressed by that number, so a
//! session starts by asking the control family for it. The reply is a run of
//! attributes; the identifier counts only where it stands right behind the
//! name that was asked for.

use vstd::prelude::*;
use crate::error::Error;
use crate::message::{NLM_F_ACK, NLM_F_REQUEST};
use crate::transaction::Transaction;

verus! {

/// The number of the control family. It is fixed and needs no lookup.
pub const GENL_ID_CTRL: u16 = 16;

/// One attribute of a reply of the control family.
#[derive(Clone, Debug, PartialEq, Eq)]
pub enum CtrlAttr {
    /// The numeric identifier of a family.
    FamilyId(u16),
    /// The name of a family.
    FamilyName(String),
    /// Any other attribute.
    Other,
}

/// What a request asks the control family to do.
#[derive(Clone, Copy, Debug, PartialEq, Eq, Structural)]
pub enum CtrlCommand {
    /// Report the family that carries a name.
    GetFamily,
}

/// The question put to the control family: the identifier of the family that
/// carries this name.
#[derive(Clone, Debug, PartialEq, Eq)]
pub struct FamilyQuery {
    /// The family that is asked: the control family.
    pub family_id: u16,
    /// What is asked of it.
    pub command: CtrlCommand,
    /// The flags of the request.
    pub flags: u16,
    /// The name that is looked up.
    pub name: String,
}

/// Whether the attribute at `i` is an identifier that stands right behind an
/// attribute with the name `name`.
pub open spec fn names_family(attrs: Seq<CtrlAttr>, name: Seq<char>, i: int) -> bool {
    &&& 1 <= i < attrs.len()
    &&& attrs[i] is FamilyId
    &&& attrs[i - 1] is FamilyName
    &&& attrs[i - 1]->FamilyName_0@ == name
}

/// Whether the attributes hold no identifier for `name` at all.
pub open spec fn unknown_family(attrs: Seq<CtrlAttr>, name: Seq<char>) -> bool {
    forall|i: int| !names_family(attrs, name, i)
}

/// Whether `id` is the identifier that the attributes give for `name`: that
/// of the first place where one stands right behind the name.
pub open spec fn resolves_to(attrs: Seq<CtrlAttr>, name: Seq<char>, id: u16) -> bool {
    exists|i: int|
        {
            &&& #[trigger] names_family(attrs, name, i)
            &&& attrs[i] == CtrlAttr::FamilyId(id)
            &&& forall|j: int| 0 <= j < i ==> !names_family(attrs, name, j)
        }
}

/// The name under which the load-balancing subsystem registers with the
/// kernel.
pub open spec fn subsystem() -> Seq<char> {
    "IPVS"@
}

/// The name under which the load-balancing subsystem registers with the
/// kernel, as the codec crate has it.
///
/// This calls `IpvsServiceCtrl::family_name` of netlink-packet-ipvs, its impl
/// of `GenlFamily::family_name` of netlink-packet-generic. The contract is
/// taken on trust from that function's source: it takes nothing and returns
/// the literal `"IPVS"`.
#[verifier::external_body]
pub(crate) fn subsystem_name() -> (name: &'static str)
    ensures
        name@ == subsystem(),
{
    <netlink_packet_ipvs::ctrl::IpvsServiceCtrl as netlink_packet_generic::GenlFamily>::family_name()
}

/// The request that asks the control family for the identifier of `name`. It
/// wants an acknowledgement and no dump.
pub fn family_query(name: &str) -> (query: FamilyQuery)
    ensures
        query.family_id == GENL_ID_CTRL,
        query.command == CtrlCommand::GetFamily,
        query.flags == NLM_F_REQUEST | NLM_F_ACK,
        query.name@ == name@,
{
    FamilyQuery {
        family_id: GENL_ID_CTRL,
        command: CtrlCommand::GetFamily,
        flags: NLM_F_REQUEST | NLM_F_ACK,
        name: name.to_owned(),
    }
}

/// The request that asks for the identifier of the load-balancing subsystem.
pub fn subsystem_query() -> (query: FamilyQuery)
    ensures
        query.family_id == GENL_ID_CTRL,
        query.command == CtrlCommand::GetFamily,
        query.flags == NLM_F_REQUEST | NLM_F_ACK,
        query.name@ == subsystem(),
{
    family_query(subsystem_name())
}

impl FamilyQuery {
    /// The exchange that this request opens.
    pub fn begin(&self) -> (t: Transaction<CtrlAttr>)
        ensures
            t@ == crate::transaction::TransactionView::<CtrlAttr>::start(false),
    {
        Transaction::new(false)
    }
}

/// Looks `name` up in the attributes of the control family's reply.
///
/// The attributes are read in order. The result is the first identifier that
/// stands right behind an attribute with this name. Where there is none the
/// family is not registered, and the result is [`Error::NotFound`]: never the
/// identifier of another family.
pub fn resolve(name: &str, attrs: &Vec<CtrlAttr>) -> (r: Result<u16, Error>)
    ensures
        match r {
            Ok(id) => resolves_to(attrs@, name@, id),
            Err(error) => error == Error::NotFound && unknown_family(attrs@, name@),
        },
{
    let wanted = name.to_owned();
    let mut confirmed = false;
    let mut i: usize = 0;
    while i < attrs.len()
        invariant
            i <= attrs.len(),
            wanted@ == name@,
            forall|j: int| 0 <= j < i ==> !names_family(attrs@, name@, j),
            confirmed == (i > 0 && attrs@[i - 1] is FamilyName && attrs@[i - 1]->FamilyName_0@
                == name@),
        decreases attrs.len() - i,
    {
        match &attrs[i] {
            CtrlAttr::FamilyId(id) => {
                if confirmed {
                    assert(names_family(attrs@, name@, i as int));
                    return Ok(*id);
                }
                confirmed = false;
            },
            CtrlAttr::FamilyName(found) => {
                confirmed = *found == wanted;
            },
            CtrlAttr::Other => {
                confirmed = false;
            },
        }
        i += 1;
    }
    Err(Error::NotFound)
}

} // verus!
