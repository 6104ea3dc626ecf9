use vstd::prelude::*;

verus! {

/// The links between star nodes, each a pair of node ids.
pub struct GalaxyGraph {
    pub links: Vec<(u64, u64)>,
}

/// The links drawn between the five catalogue stars, given their ids in catalogue order: a
/// ring through all five, and one chord from the first to the third.
pub open spec fn catalog_links(ids: Seq<u64>) -> Seq<(u64, u64)> {
    seq![
        (ids[0], ids[1]),
        (ids[1], ids[2]),
        (ids[2], ids[3]),
        (ids[3], ids[4]),
        (ids[4], ids[0]),
        (ids[0], ids[2]),
    ]
}

/// A link is highlighted when one of its ends is among the selected nodes.
pub open spec fn link_touches(link: (u64, u64), selected: Seq<u64>) -> bool {
    selected.contains(link.0) || selected.contains(link.1)
}

/// Whether `id` occurs in `ids`.
pub fn contains_id(ids: &Vec<u64>, id: u64) -> (found: bool)
    ensures
        found == ids@.contains(id),
{
    let n = ids.len();
    let mut i: usize = 0;
    while i < n
        invariant
            n == ids@.len(),
            i <= n,
            forall|j: int| 0 <= j < i ==> ids@[j] != id,
        decreases n - i,
    {
        if ids[i] == id {
            return true;
        }
        i = i + 1;
    }
    false
}

impl Default for GalaxyGraph {
    /// A graph with no link.
    fn default() -> (g: Self)
        ensures
            g.links@.len() == 0,
    {
        GalaxyGraph { links: Vec::new() }
    }
}

impl GalaxyGraph {
    /// Appends the catalogue's links between the nodes created for the five catalogue stars
    /// (`ids`, in catalogue order).
    pub fn link_catalog(&mut self, ids: &Vec<u64>)
        requires
            ids@.len() >= 5,
        ensures
            final(self).links@ == old(self).links@ + catalog_links(ids@),
    {
        self.links.push((ids[0], ids[1]));
        self.links.push((ids[1], ids[2]));
        self.links.push((ids[2], ids[3]));
        self.links.push((ids[3], ids[4]));
        self.links.push((ids[4], ids[0]));
        self.links.push((ids[0], ids[2]));
        assert(self.links@ =~= old(self).links@ + catalog_links(ids@));
    }

    /// For each link, in order, whether it is drawn highlighted: whether one of its ends is
    /// selected.
    pub fn link_highlights(&self, selected: &Vec<u64>) -> (hl: Vec<bool>)
        ensures
            hl@.len() == self.links@.len(),
            forall|i: int|
                0 <= i < hl@.len() ==> hl@[i] == link_touches(#[trigger] self.links@[i], selected@),
    {
        let n = self.links.len();
        let mut hl: Vec<bool> = Vec::new();
        let mut i: usize = 0;
        while i < n
            invariant
                n == self.links@.len(),
                i <= n,
                hl@.len() == i,
                forall|j: int|
                    0 <= j < i ==> hl@[j] == link_touches(#[trigger] self.links@[j], selected@),
            decreases n - i,
        {
            let (a, b) = self.links[i];
            let h = contains_id(selected, a) || contains_id(selected, b);
            hl.push(h);
            i = i + 1;
        }
        hl
    }
}

/// Whether `id` is one of the two ends of `link`.
pub open spec fn has_end(link: (u64, u64), id: u64) -> bool {
    link.0 == id || link.1 == id
}

/// The catalogue links join catalogue stars only, and every catalogue star is an end of at
/// least two of them (the ring leaves no star isolated or hanging).
pub proof fn lemma_catalog_links_connect_stars(ids: Seq<u64>)
    requires
        ids.len() >= 5,
    ensures
        catalog_links(ids).len() == 6,
        forall|i: int|
            0 <= i < 6 ==> ids.take(5).contains(#[trigger] catalog_links(ids)[i].0) && ids.take(
                5,
            ).contains(catalog_links(ids)[i].1),
        forall|k: int|
            0 <= k < 5 ==> exists|i: int, j: int|
                0 <= i < j < 6 && has_end(catalog_links(ids)[i], #[trigger] ids[k]) && has_end(
                    catalog_links(ids)[j],
                    ids[k],
                ),
{
    let l = catalog_links(ids);
    let t = ids.take(5);
    assert forall|i: int| 0 <= i < 6 implies t.contains(#[trigger] l[i].0) && t.contains(l[i].1) by {
        assert(t[0] == ids[0] && t[1] == ids[1] && t[2] == ids[2] && t[3] == ids[3] && t[4] == ids[4]);
    }
    assert forall|k: int| 0 <= k < 5 implies exists|i: int, j: int|
        0 <= i < j < 6 && has_end(l[i], #[trigger] ids[k]) && has_end(l[j], ids[k]) by {
        if k == 0 {
            assert(has_end(l[0], ids[0]) && has_end(l[4], ids[0]));
        } else if k == 1 {
            assert(has_end(l[0], ids[1]) && has_end(l[1], ids[1]));
        } else if k == 2 {
            assert(has_end(l[1], ids[2]) && has_end(l[2], ids[2]));
        } else if k == 3 {
            assert(has_end(l[2], ids[3]) && has_end(l[3], ids[3]));
        } else {
            assert(has_end(l[3], ids[4]) && has_end(l[4], ids[4]));
        }
    }
}

/// With one node selected, the highlighted links are exactly those that end at it.
pub proof fn lemma_single_selection_highlights_its_links(link: (u64, u64), id: u64)
    ensures
        link_touches(link, seq![id]) == has_end(link, id),
{
    let s = seq![id];
    assert(s[0] == id);
    assert(s.contains(link.0) ==> s[0] == link.0);
    assert(s.contains(link.1) ==> s[0] == link.1);
    if link.0 == id {
        assert(s.contains(link.0));
    }
    if link.1 == id {
        assert(s.contains(link.1));
    }
}

} // verus!
