//! The campaign record and the records it is made of.
//!
//! These are plain data. Each has a view, which is what contracts speak of:
//! texts are sequences of characters and lists are sequences of views.

use vstd::prelude::*;

verus! {

/// A named reference shown with the campaign.
#[derive(Debug, PartialEq, Eq)]
pub struct Link {
    pub name: String,
    pub href: String,
}

/// The view of a [`Link`].
#[verifier::ext_equal]
pub struct LinkView {
    pub name: Seq<char>,
    pub href: Seq<char>,
}

impl View for Link {
    type V = LinkView;

    open spec fn view(&self) -> LinkView {
        LinkView { name: self.name@, href: self.href@ }
    }
}

impl Clone for Link {
    fn clone(&self) -> (copy: Self)
        ensures
            copy@ == self@,
    {
        Link { name: self.name.clone(), href: self.href.clone() }
    }
}

/// A reward tier. Tiers describe the campaign; nothing is enforced from them.
#[derive(Debug, PartialEq, Eq)]
pub struct Tier {
    pub name: String,
    pub description: String,
    pub required_contribution: u128,
}

/// The view of a [`Tier`].
#[verifier::ext_equal]
pub struct TierView {
    pub name: Seq<char>,
    pub description: Seq<char>,
    pub required_contribution: u128,
}

impl View for Tier {
    type V = TierView;

    open spec fn view(&self) -> TierView {
        TierView {
            name: self.name@,
            description: self.description@,
            required_contribution: self.required_contribution,
        }
    }
}

impl Clone for Tier {
    fn clone(&self) -> (copy: Self)
        ensures
            copy@ == self@,
    {
        Tier {
            name: self.name.clone(),
            description: self.description.clone(),
            required_contribution: self.required_contribution,
        }
    }
}

/// The views of a list of links, in order.
pub open spec fn link_views(links: Seq<Link>) -> Seq<LinkView> {
    Seq::new(links.len(), |i: int| links[i]@)
}

/// The views of a list of tiers, in order.
pub open spec fn tier_views(tiers: Seq<Tier>) -> Seq<TierView> {
    Seq::new(tiers.len(), |i: int| tiers[i]@)
}

/// Copies a list of links.
pub fn clone_links(links: &Vec<Link>) -> (copy: Vec<Link>)
    ensures
        link_views(copy@) == link_views(links@),
{
    let mut copy: Vec<Link> = Vec::new();
    let mut i: usize = 0;
    while i < links.len()
        invariant
            i <= links@.len(),
            copy@.len() == i,
            forall|k: int| 0 <= k < i ==> copy@[k]@ == links@[k]@,
        decreases links@.len() - i,
    {
        copy.push(links[i].clone());
        i += 1;
    }
    assert(link_views(copy@) =~= link_views(links@));
    copy
}

/// Copies a list of tiers.
pub fn clone_tiers(tiers: &Vec<Tier>) -> (copy: Vec<Tier>)
    ensures
        tier_views(copy@) == tier_views(tiers@),
{
    let mut copy: Vec<Tier> = Vec::new();
    let mut i: usize = 0;
    while i < tiers.len()
        invariant
            i <= tiers@.len(),
            copy@.len() == i,
            forall|k: int| 0 <= k < i ==> copy@[k]@ == tiers@[k]@,
        decreases tiers@.len() - i,
    {
        copy.push(tiers[i].clone());
        i += 1;
    }
    assert(tier_views(copy@) =~= tier_views(tiers@));
    copy
}

/// The campaign as it is kept: what its creator announced, and who the
/// creator is.
///
/// `end_time` is in nanoseconds since the Unix epoch. Pledges are taken
/// before that instant and settlement from that instant on.
#[derive(Debug, PartialEq, Eq)]
pub struct Campaign {
    pub name: String,
    pub description: String,
    pub end_time: u64,
    pub goal: u128,
    pub links: Vec<Link>,
    pub tiers: Vec<Tier>,
    pub creator: String,
    pub minimum_contribution: Option<u128>,
}

/// The view of a [`Campaign`].
#[verifier::ext_equal]
pub struct CampaignView {
    pub name: Seq<char>,
    pub description: Seq<char>,
    pub end_time: u64,
    pub goal: u128,
    pub links: Seq<LinkView>,
    pub tiers: Seq<TierView>,
    pub creator: Seq<char>,
    pub minimum_contribution: Option<u128>,
}

impl View for Campaign {
    type V = CampaignView;

    open spec fn view(&self) -> CampaignView {
        CampaignView {
            name: self.name@,
            description: self.description@,
            end_time: self.end_time,
            goal: self.goal,
            links: link_views(self.links@),
            tiers: tier_views(self.tiers@),
            creator: self.creator@,
            minimum_contribution: self.minimum_contribution,
        }
    }
}

impl Clone for Campaign {
    fn clone(&self) -> (copy: Self)
        ensures
            copy@ == self@,
    {
        Campaign {
            name: self.name.clone(),
            description: self.description.clone(),
            end_time: self.end_time,
            goal: self.goal,
            links: clone_links(&self.links),
            tiers: clone_tiers(&self.tiers),
            creator: self.creator.clone(),
            minimum_contribution: self.minimum_contribution,
        }
    }
}

/// What a creator announces when the campaign is created: the campaign
/// without its creator, who is whoever creates it.
#[derive(Debug, PartialEq, Eq)]
pub struct CampaignMeta {
    pub name: String,
    pub description: String,
    pub end_time: u64,
    pub goal: u128,
    pub links: Vec<Link>,
    pub tiers: Vec<Tier>,
    pub minimum_contribution: Option<u128>,
}

/// The view of a [`CampaignMeta`].
#[verifier::ext_equal]
pub struct CampaignMetaView {
    pub name: Seq<char>,
    pub description: Seq<char>,
    pub end_time: u64,
    pub goal: u128,
    pub links: Seq<LinkView>,
    pub tiers: Seq<TierView>,
    pub minimum_contribution: Option<u128>,
}

impl View for CampaignMeta {
    type V = CampaignMetaView;

    open spec fn view(&self) -> CampaignMetaView {
        CampaignMetaView {
            name: self.name@,
            description: self.description@,
            end_time: self.end_time,
            goal: self.goal,
            links: link_views(self.links@),
            tiers: tier_views(self.tiers@),
            minimum_contribution: self.minimum_contribution,
        }
    }
}

impl Clone for CampaignMeta {
    fn clone(&self) -> (copy: Self)
        ensures
            copy@ == self@,
    {
        CampaignMeta {
            name: self.name.clone(),
            description: self.description.clone(),
            end_time: self.end_time,
            goal: self.goal,
            links: clone_links(&self.links),
            tiers: clone_tiers(&self.tiers),
            minimum_contribution: self.minimum_contribution,
        }
    }
}

} // verus!
