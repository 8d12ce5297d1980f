//! Pane focus and right-pane tabs.

use vstd::prelude::*;

verus! {

/// Keyboard focus is left or middle only — the right pane is content, not a focus target.
#[derive(Clone, Copy, Debug, PartialEq, Eq, Structural)]
pub enum PaneFocus {
    Left,
    Middle,
}

/// Right-pane tabs.
#[derive(Clone, Copy, Debug, PartialEq, Eq, Structural)]
pub enum RightTab {
    Viewer,
    Templates,
    Metadata,
    Writing,
}

} // verus!

verus! {

impl PaneFocus {
    /// Tab: the other pane.
    pub fn cycle(self) -> (r: Self)
        ensures
            r != self,
    {
        match self {
            PaneFocus::Left => PaneFocus::Middle,
            PaneFocus::Middle => PaneFocus::Left,
        }
    }
}

impl Default for PaneFocus {
    fn default() -> (r: Self)
        ensures
            r == PaneFocus::Middle,
    {
        PaneFocus::Middle
    }
}

/// Cycling focus twice returns to the starting pane.
pub proof fn law_focus_cycle_twice(p: PaneFocus, q: PaneFocus, r: PaneFocus)
    requires
        q != p,
        r != q,
    ensures
        r == p,
{
    match p {
        PaneFocus::Left => {},
        PaneFocus::Middle => {},
    }
}

impl RightTab {
    pub open spec fn label_spec(self) -> Seq<char> {
        match self {
            RightTab::Viewer => "Viewer"@,
            RightTab::Templates => "Templates"@,
            RightTab::Metadata => "Metadata"@,
            RightTab::Writing => "Writing"@,
        }
    }

    /// Tab button label.
    pub fn label(self) -> (r: &'static str)
        ensures
            r@ == self.label_spec(),
    {
        match self {
            RightTab::Viewer => "Viewer",
            RightTab::Templates => "Templates",
            RightTab::Metadata => "Metadata",
            RightTab::Writing => "Writing",
        }
    }
}

/// Whether a right tab has content: the Viewer always, the others when the
/// entry has templates / metadata / writing.
pub open spec fn tab_available_spec(t: RightTab, has_templates: bool, has_metadata: bool, has_writing: bool) -> bool {
    match t {
        RightTab::Viewer => true,
        RightTab::Templates => has_templates,
        RightTab::Metadata => has_metadata,
        RightTab::Writing => has_writing,
    }
}

/// Whether a right tab has content for the current entry, given whether it
/// has templates, metadata and writing (`None`: no entry, only the Viewer).
pub open spec fn tab_avail(t: RightTab, detail: Option<(bool, bool, bool)>) -> bool {
    match detail {
        Some((a, b, c)) => tab_available_spec(t, a, b, c),
        None => t == RightTab::Viewer,
    }
}

/// Whether a right tab has content for the current entry (`None`: no entry).
pub fn right_tab_available(t: RightTab, detail: Option<(bool, bool, bool)>) -> (r: bool)
    ensures
        r == tab_avail(t, detail),
{
    match t {
        RightTab::Viewer => true,
        RightTab::Templates => match detail {
            Some((a, _, _)) => a,
            None => false,
        },
        RightTab::Metadata => match detail {
            Some((_, b, _)) => b,
            None => false,
        },
        RightTab::Writing => match detail {
            Some((_, _, c)) => c,
            None => false,
        },
    }
}

/// The tab kept after the entry changed: the current one if it still has
/// content, else the Viewer.
pub fn keep_or_viewer(cur: RightTab, detail: Option<(bool, bool, bool)>) -> (r: RightTab)
    ensures
        r == (if tab_avail(cur, detail) {
            cur
        } else {
            RightTab::Viewer
        }),
{
    if right_tab_available(cur, detail) {
        cur
    } else {
        RightTab::Viewer
    }
}

/// A v / t / m / w request switches only to a tab with content.
pub fn requested_tab(cur: RightTab, req: RightTab, detail: Option<(bool, bool, bool)>) -> (r: RightTab)
    ensures
        r == (if tab_avail(req, detail) {
            req
        } else {
            cur
        }),
{
    if right_tab_available(req, detail) {
        req
    } else {
        cur
    }
}

/// The available tabs in order Viewer, Templates, Metadata, Writing.
pub open spec fn available_tabs_spec(detail: Option<(bool, bool, bool)>) -> Seq<RightTab> {
    let (a, b, c) = match detail {
        Some(x) => x,
        None => (false, false, false),
    };
    seq![RightTab::Viewer] + (if a { seq![RightTab::Templates] } else { Seq::empty() }) + (if b {
        seq![RightTab::Metadata]
    } else {
        Seq::empty()
    }) + (if c { seq![RightTab::Writing] } else { Seq::empty() })
}

/// Shift+Tab: the next available tab after the current one (wrapping; from
/// an unavailable tab, the one after the Viewer).
pub open spec fn cycle_tab_spec(cur: RightTab, detail: Option<(bool, bool, bool)>) -> RightTab {
    let vis = available_tabs_spec(detail);
    let idx = match crate::nav::position_spec(vis, cur) {
        Some(i) => i,
        None => 0,
    };
    vis[(idx + 1) % (vis.len() as int)]
}

/// Shift+Tab over the available right tabs.
pub fn cycle_right_tab(cur: RightTab, detail: Option<(bool, bool, bool)>) -> (r: RightTab)
    ensures
        r == cycle_tab_spec(cur, detail),
        tab_avail(r, detail),
{
    let mut vis: Vec<RightTab> = Vec::new();
    vis.push(RightTab::Viewer);
    let (a, b, c) = match detail {
        Some(x) => x,
        None => (false, false, false),
    };
    if a {
        vis.push(RightTab::Templates);
    }
    if b {
        vis.push(RightTab::Metadata);
    }
    if c {
        vis.push(RightTab::Writing);
    }
    assert(vis@ =~= available_tabs_spec(detail));
    let ghost v = vis@;
    let mut j: usize = 0;
    while j < vis.len() && vis[j] != cur
        invariant
            j <= v.len(),
            v == vis@,
            forall|k: int| 0 <= k < j ==> v[k] != cur,
        decreases v.len() - j,
    {
        j += 1;
    }
    let idx: usize = if j < vis.len() {
        proof {
            crate::nav::lemma_position_found(v, cur, j as int);
        }
        j
    } else {
        proof {
            crate::nav::lemma_position_absent(v, cur);
        }
        0
    };
    let r = vis[(idx + 1) % vis.len()];
    r
}

/// The right pane always shows a tab with content: after the entry changes
/// the tab is kept only if it still has content (else the Viewer); a request
/// for a tab switches only to one with content; Shift+Tab moves to the next
/// tab with content in the order Viewer, Templates, Metadata, Writing,
/// wrapping. The tabs with content are exactly those listed in that order.
pub proof fn law_right_tab_has_content(cur: RightTab, req: RightTab, detail: Option<(bool, bool, bool)>)
    ensures
        forall|t: RightTab| #[trigger] tab_avail(t, detail) <==> available_tabs_spec(detail).contains(t),
        tab_avail(if tab_avail(cur, detail) { cur } else { RightTab::Viewer }, detail),
        tab_avail(cur, detail) ==> tab_avail(if tab_avail(req, detail) { req } else { cur }, detail),
        tab_avail(cycle_tab_spec(cur, detail), detail),
        tab_avail(cur, detail) ==> ({
            let vis = available_tabs_spec(detail);
            exists|i: int|
                0 <= i < vis.len() && vis[i] == cur && cycle_tab_spec(cur, detail) == #[trigger] vis[(i + 1) % (
                vis.len() as int)]
        }),
{
    let vis = available_tabs_spec(detail);
    let (a, b, c) = match detail {
        Some(x) => x,
        None => (false, false, false),
    };
    assert forall|t: RightTab| #[trigger] tab_avail(t, detail) <==> vis.contains(t) by {
        match t {
            RightTab::Viewer => {
                assert(vis[0] == t);
            },
            RightTab::Templates => {
                if a {
                    assert(vis[1] == t);
                }
            },
            RightTab::Metadata => {
                if b {
                    assert(vis[1 + (if a { 1int } else { 0 })] == t);
                }
            },
            RightTab::Writing => {
                if c {
                    assert(vis[vis.len() - 1] == t);
                }
            },
        }
    }
    crate::nav::lemma_position_spec(vis, cur);
    let idx = match crate::nav::position_spec(vis, cur) {
        Some(i) => i,
        None => 0,
    };
    let j = (idx + 1) % (vis.len() as int);
    assert(0 <= j < vis.len());
    assert(vis.contains(vis[j]));
}

} // verus!
