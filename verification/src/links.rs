//! The links that go with the entries: which ones are drawn when an entry
//! is created, and which revision of an actant is the current one.

use vstd::prelude::*;
use crate::action::{LinkTag, Timestamp};
use crate::hash::{ActionHash, AnyLinkableHash};
use crate::{EntryTypes, LinkTypes};

verus! {

/// A link as a query for the links of a base hands it out.
#[derive(Clone, Debug, PartialEq, Eq)]
pub struct Link {
    pub target: AnyLinkableHash,
    pub timestamp: Timestamp,
    pub tag: LinkTag,
}

/// The well-known places that the indices start from.
#[derive(Clone, Copy, Debug, PartialEq, Eq, Structural)]
pub enum Anchor {
    AllActants,
    AllClauses,
}

/// Where a link starts.
#[derive(Clone, Debug, PartialEq, Eq)]
pub enum LinkBase {
    Record(ActionHash),
    Anchor(Anchor),
}

/// A link that is to be drawn to a new record.
#[derive(Clone, Debug, PartialEq, Eq)]
pub struct PlannedLink {
    pub base: LinkBase,
    pub link_type: LinkTypes,
}

/// A [`LinkBase`] in contracts.
pub enum BaseView {
    Record(Seq<u8>),
    Anchor(Anchor),
}

/// A [`PlannedLink`] in contracts.
pub struct PlannedLinkView {
    pub base: BaseView,
    pub link_type: LinkTypes,
}

impl View for LinkBase {
    type V = BaseView;

    open spec fn view(&self) -> BaseView {
        match self {
            LinkBase::Record(hash) => BaseView::Record(hash@),
            LinkBase::Anchor(anchor) => BaseView::Anchor(*anchor),
        }
    }
}

impl View for PlannedLink {
    type V = PlannedLinkView;

    open spec fn view(&self) -> PlannedLinkView {
        PlannedLinkView { base: self.base@, link_type: self.link_type }
    }
}

impl Anchor {
    /// The path of the anchor.
    pub fn path(&self) -> (r: &'static str)
        ensures
            r@ == match *self {
                Anchor::AllActants => "all_actants"@,
                Anchor::AllClauses => "all_clauses"@,
            },
    {
        match self {
            Anchor::AllActants => "all_actants",
            Anchor::AllClauses => "all_clauses",
        }
    }
}

/// The link of kind `link_type` from the record at `hash`.
pub open spec fn from_record(hash: ActionHash, link_type: LinkTypes) -> PlannedLinkView {
    PlannedLinkView { base: BaseView::Record(hash@), link_type }
}

/// The link of kind `link_type` from `anchor`.
pub open spec fn from_anchor(anchor: Anchor, link_type: LinkTypes) -> PlannedLinkView {
    PlannedLinkView { base: BaseView::Anchor(anchor), link_type }
}

/// The links that lead to a new entry from the records that it names. A
/// clause is reached from each actant that it binds, then from each actant
/// that it entitles. A report is reached from its actant and from its
/// clause, an endorsement from its report. Nothing leads to an actant.
pub open spec fn relationship_links(entry: EntryTypes) -> Seq<PlannedLinkView> {
    match entry {
        EntryTypes::Actant(_) => seq![],
        EntryTypes::Clause(clause) => clause.responsibility_holders@.map_values(
            |hash: ActionHash| from_record(hash, LinkTypes::ActantToClauses),
        ) + clause.right_holders@.map_values(
            |hash: ActionHash| from_record(hash, LinkTypes::ActantToClauses),
        ),
        EntryTypes::Report(report) => seq![
            from_record(report.actant_hash, LinkTypes::ActantToReports),
            from_record(report.clause_hash, LinkTypes::ClauseToReports),
        ],
        EntryTypes::Endorsement(endorsement) => seq![
            from_record(endorsement.report_hash, LinkTypes::ReportToEndorsements),
        ],
    }
}

/// The links that put a new entry into an index: an actant goes into the
/// index of all actants and a clause into that of all clauses.
pub open spec fn index_links(entry: EntryTypes) -> Seq<PlannedLinkView> {
    match entry {
        EntryTypes::Actant(_) => seq![from_anchor(Anchor::AllActants, LinkTypes::AllActants)],
        EntryTypes::Clause(_) => seq![from_anchor(Anchor::AllClauses, LinkTypes::AllClauses)],
        _ => seq![],
    }
}

/// The links that go with a new entry, in the order in which they are
/// drawn: those from the records that it names, then those from an index.
pub open spec fn planned_links(entry: EntryTypes) -> Seq<PlannedLinkView> {
    relationship_links(entry) + index_links(entry)
}

/// The views of `links`, in order.
pub open spec fn views(links: Seq<PlannedLink>) -> Seq<PlannedLinkView> {
    links.map_values(|link: PlannedLink| link@)
}

/// Adds to `links` one link of kind `link_type` from each record of
/// `bases`.
fn plan_from_each(links: &mut Vec<PlannedLink>, bases: &Vec<ActionHash>, link_type: LinkTypes)
    ensures
        views(final(links)@) == views(old(links)@) + bases@.map_values(
            |hash: ActionHash| from_record(hash, link_type),
        ),
{
    let ghost before = links@;
    let mut i: usize = 0;
    while i < bases.len()
        invariant
            i <= bases.len(),
            views(links@) == views(before) + bases@.take(i as int).map_values(
                |hash: ActionHash| from_record(hash, link_type),
            ),
        decreases bases.len() - i,
    {
        let ghost so_far = links@;
        links.push(PlannedLink { base: LinkBase::Record(bases[i].duplicate()), link_type });
        assert(views(links@) =~= views(so_far).push(from_record(bases@[i as int], link_type)));
        assert(bases@.take(i + 1).map_values(|hash: ActionHash| from_record(hash, link_type))
            =~= bases@.take(i as int).map_values(
            |hash: ActionHash| from_record(hash, link_type),
        ).push(from_record(bases@[i as int], link_type)));
        i = i + 1;
    }
    assert(bases@.take(bases.len() as int) =~= bases@);
}

/// The links that are to be drawn to the record of a new entry from the
/// records that the entry names.
pub fn relationship_links_for_entry(entry: &EntryTypes) -> (links: Vec<PlannedLink>)
    ensures
        views(links@) == relationship_links(*entry),
{
    let mut links: Vec<PlannedLink> = Vec::new();
    match entry {
        EntryTypes::Actant(_) => {},
        EntryTypes::Clause(clause) => {
            plan_from_each(&mut links, &clause.responsibility_holders, LinkTypes::ActantToClauses);
            plan_from_each(&mut links, &clause.right_holders, LinkTypes::ActantToClauses);
        },
        EntryTypes::Report(report) => {
            links.push(
                PlannedLink {
                    base: LinkBase::Record(report.actant_hash.duplicate()),
                    link_type: LinkTypes::ActantToReports,
                },
            );
            links.push(
                PlannedLink {
                    base: LinkBase::Record(report.clause_hash.duplicate()),
                    link_type: LinkTypes::ClauseToReports,
                },
            );
        },
        EntryTypes::Endorsement(endorsement) => {
            links.push(
                PlannedLink {
                    base: LinkBase::Record(endorsement.report_hash.duplicate()),
                    link_type: LinkTypes::ReportToEndorsements,
                },
            );
        },
    }
    assert(views(links@) =~= relationship_links(*entry));
    links
}

/// The links that are to be drawn to the record of a new entry from an
/// index.
pub fn index_links_for_entry(entry: &EntryTypes) -> (links: Vec<PlannedLink>)
    ensures
        views(links@) == index_links(*entry),
{
    let mut links: Vec<PlannedLink> = Vec::new();
    match entry {
        EntryTypes::Actant(_) => {
            links.push(
                PlannedLink {
                    base: LinkBase::Anchor(Anchor::AllActants),
                    link_type: LinkTypes::AllActants,
                },
            );
        },
        EntryTypes::Clause(_) => {
            links.push(
                PlannedLink {
                    base: LinkBase::Anchor(Anchor::AllClauses),
                    link_type: LinkTypes::AllClauses,
                },
            );
        },
        _ => {},
    }
    assert(views(links@) =~= index_links(*entry));
    links
}

/// All the links that are to be drawn to the record of a new entry.
pub fn links_for_entry(entry: &EntryTypes) -> (links: Vec<PlannedLink>)
    ensures
        views(links@) == planned_links(*entry),
{
    let mut links = relationship_links_for_entry(entry);
    let mut of_index = index_links_for_entry(entry);
    let ghost first = links@;
    let ghost second = of_index@;
    links.append(&mut of_index);
    assert(views(first + second) =~= views(first) + views(second));
    links
}

/// Whether the link at place `i` is the latest of `links`: none bears a
/// later time, and none that comes after it bears the same time.
pub open spec fn is_latest(links: Seq<Link>, i: int) -> bool {
    &&& 0 <= i < links.len()
    &&& forall|j: int| 0 <= j < links.len() ==> links[j].timestamp.0 <= links[i].timestamp.0
    &&& forall|j: int| i < j < links.len() ==> links[j].timestamp.0 < links[i].timestamp.0
}

/// The place of the latest of `links`: the one with the greatest time and,
/// among several with that time, the one that was handed out last.
pub fn latest_link(links: &Vec<Link>) -> (r: Option<usize>)
    ensures
        match r {
            Some(i) => is_latest(links@, i as int),
            None => links@.len() == 0,
        },
{
    if links.len() == 0 {
        return None;
    }
    let mut best: usize = 0;
    let mut i: usize = 1;
    while i < links.len()
        invariant
            1 <= i <= links.len(),
            best < i,
            forall|j: int| 0 <= j < i ==> links@[j].timestamp.0 <= links@[best as int].timestamp.0,
            forall|j: int| best < j < i ==> links@[j].timestamp.0 < links@[best as int].timestamp.0,
        decreases links.len() - i,
    {
        if links[i].timestamp.0 >= links[best].timestamp.0 {
            best = i;
        }
        i = i + 1;
    }
    Some(best)
}

/// The address of the current revision of the actant that was created at
/// `original`, given the links from `original` to its revisions: the
/// address itself where there is no revision, else the target of the
/// latest link, where that target is the address of a record.
pub open spec fn current_revision(original: ActionHash, links: Seq<Link>, address: Option<Seq<u8>>)
    -> bool {
    if links.len() == 0 {
        address == Some(original@)
    } else {
        exists|i: int| is_latest(links, i) && address == links[i].target.action_hash()
    }
}

/// The address of the current revision of the actant that was created at
/// `original_actant_hash`. `None` where the latest link does not point to
/// a record.
pub fn latest_actant_hash(original_actant_hash: &ActionHash, links: &Vec<Link>) -> (r: Option<
    ActionHash,
>)
    ensures
        current_revision(
            *original_actant_hash,
            links@,
            match r {
                Some(hash) => Some(hash@),
                None => None,
            },
        ),
{
    match latest_link(links) {
        Some(i) => links[i].target.into_action_hash(),
        None => Some(original_actant_hash.duplicate()),
    }
}

} // verus!
