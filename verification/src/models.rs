//! Plain representations of what the remote service sends back: member
//! records, the page envelope of the list read, and the structured body of a
//! remote-reported error.

use vstd::prelude::*;
use crate::decimal::dec_str;
use crate::decimal::usize_to_string;

verus! {

/// A member record of the list; only the identifier matters to the pipeline,
/// every other field of the remote payload is ignored.
#[derive(Debug, Clone)]
pub struct MailchimpMember {
    pub id: String,
}

impl View for MailchimpMember {
    type V = Seq<char>;

    open spec fn view(&self) -> Seq<char> {
        self.id@
    }
}

/// The envelope of one page of the list read.
#[derive(Debug, Clone)]
pub struct MailchimpListResponse {
    pub members: Vec<MailchimpMember>,
}

impl View for MailchimpListResponse {
    type V = Seq<Seq<char>>;

    open spec fn view(&self) -> Seq<Seq<char>> {
        member_views(self.members@)
    }
}

/// A tag attached to a member record.
#[derive(Debug, Clone)]
pub struct MailchimpMemberTag {
    pub id: u64,
    pub name: String,
}

/// A note attached to a member record.
#[derive(Debug, Clone)]
pub struct MailchimpMemberNote {
    pub note_id: String,
    pub created_at: String,
    pub created_by: String,
    pub note: String,
}

/// A marketing permission attached to a member record.
#[derive(Debug, Clone)]
pub struct MailchimpMemberMarketingPermission {
    pub marketing_permission_id: String,
    pub text: String,
    pub enabled: bool,
}

/// The structured body of a 4xx response: a machine-readable type tag, a
/// human title, the numeric status, and optional detail text.
#[derive(Debug, Clone)]
pub struct MailchimpError {
    pub type_tag: String,
    pub title: String,
    pub status: u16,
    pub detail: Option<String>,
    pub istance: Option<String>,
}

/// The ghost image of a remote-reported error.
pub ghost struct MailchimpErrorView {
    pub type_tag: Seq<char>,
    pub title: Seq<char>,
    pub status: u16,
    pub detail: Option<Seq<char>>,
    pub istance: Option<Seq<char>>,
}

impl View for MailchimpError {
    type V = MailchimpErrorView;

    open spec fn view(&self) -> MailchimpErrorView {
        MailchimpErrorView {
            type_tag: self.type_tag@,
            title: self.title@,
            status: self.status,
            detail: match self.detail {
                Some(d) => Some(d@),
                None => None,
            },
            istance: match self.istance {
                Some(d) => Some(d@),
                None => None,
            },
        }
    }
}

/// The identifiers of a sequence of owned identifier strings, as character
/// sequences.
pub open spec fn id_views(ids: Seq<String>) -> Seq<Seq<char>> {
    ids.map_values(|s: String| s@)
}

/// The identifiers of a sequence of member records, in record order.
pub open spec fn member_views(members: Seq<MailchimpMember>) -> Seq<Seq<char>> {
    members.map_values(|m: MailchimpMember| m@)
}

/// The one-line rendering of a remote-reported error: the title, the status
/// in parentheses, and the detail text (empty when the body carried none).
pub open spec fn spec_error_message(v: MailchimpErrorView) -> Seq<char> {
    v.title + " ("@ + dec_str(v.status as int) + "): "@ + (match v.detail {
        Some(d) => d,
        None => Seq::<char>::empty(),
    })
}

impl MailchimpError {
    /// Renders the error on one line, title first, suitable for reporting a
    /// single member's failure.
    pub fn message(&self) -> (r: String)
        ensures
            r@ == spec_error_message(self@),
    {
        let mut r = self.title.clone();
        r.append(" (");
        let num = usize_to_string(self.status as usize);
        r.append(num.as_str());
        r.append("): ");
        match &self.detail {
            Some(d) => r.append(d.as_str()),
            None => (),
        }
        proof {
            assert(r@ =~= spec_error_message(self@));
        }
        r
    }
}

/// Extracts the identifiers of a page of member records, in page order.
pub fn member_ids(members: Vec<MailchimpMember>) -> (r: Vec<String>)
    ensures
        id_views(r@) == member_views(members@),
{
    let mut r: Vec<String> = Vec::new();
    let mut i: usize = 0;
    while i < members.len()
        invariant
            i <= members.len(),
            id_views(r@) =~= member_views(members@.subrange(0, i as int)),
        decreases members.len() - i,
    {
        r.push(members[i].id.clone());
        proof {
            assert(id_views(r@) =~= member_views(members@.subrange(0, i as int)).push(
                members@[i as int]@,
            ));
            assert(members@.subrange(0, i + 1) =~= members@.subrange(0, i as int).push(
                members@[i as int],
            ));
            assert(member_views(members@.subrange(0, i + 1)) =~= member_views(
                members@.subrange(0, i as int),
            ).push(members@[i as int]@));
        }
        i = i + 1;
    }
    proof {
        assert(members@.subrange(0, members@.len() as int) =~= members@);
        assert(id_views(r@) =~= member_views(members@));
    }
    r
}

} // verus!
