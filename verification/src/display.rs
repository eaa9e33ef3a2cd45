//! The viewport cursor, a bounded two-dimensional position over the terminal
//! grid moved by clamped directional travel, and the visual state around it:
//! open tabs, their content and navigation regions, and the navigation bar.
use vstd::prelude::*;
use vstd::pervasive::VecAdditionalExecFns;

use crate::tui::TuiNode;
use crate::tui::collapse_spec;
use crate::tui::isolate_forest;
use crate::tui::isolate_nav_forest;
use crate::tui::tui_forest_view;

verus! {

/// A direction in which the cursor can be asked to move.
#[derive(Clone, Copy, Debug, PartialEq, Eq, Structural)]
pub enum CursorDirection {
    Up,
    Down,
    Left,
    Right,
}

/// A cursor position `(x, y)` bounded by an independent per-axis maximum.
/// Invariant: after any operation `0 <= x <= max_x` and `0 <= y <= max_y`.
#[derive(Clone, Copy, Debug)]
pub struct TuiCursor {
    pub position: (u16, u16),
    pub max: (u16, u16),
}

impl TuiCursor {
    /// The bounds invariant: each coordinate is at most its axis maximum.
    pub open spec fn wf(&self) -> bool {
        self.position.0 <= self.max.0 && self.position.1 <= self.max.1
    }

    /// Where clamped travel along one axis ends up: a positive delta moves to
    /// `min(pos + delta, max)`, a negative one to `max(pos - |delta|, 0)`,
    /// and a zero delta leaves the coordinate alone.
    pub open spec fn travel_axis(pos: u16, max: u16, delta: int) -> int {
        if delta > 0 {
            if pos + delta <= max {
                pos + delta
            } else {
                max as int
            }
        } else if delta < 0 {
            if pos + delta >= 0 {
                pos + delta
            } else {
                0
            }
        } else {
            pos as int
        }
    }

    /// A fresh cursor at the fixed initial position.
    pub fn new() -> (r: TuiCursor)
        ensures
            r.position == (1u16, 1u16),
            r.max == (1u16, 1u16),
            r.wf(),
    {
        TuiCursor { position: (1, 1), max: (1, 1) }
    }

    /// Whether a destination column is inside the bounds.
    pub fn check_x(&self, dest: u16) -> (r: bool)
        ensures
            r == (dest <= self.max.0),
    {
        dest <= self.max.0
    }

    /// Whether a destination row is inside the bounds.
    pub fn check_y(&self, dest: u16) -> (r: bool)
        ensures
            r == (dest <= self.max.1),
    {
        dest <= self.max.1
    }

    /// Move by signed deltas along both axes at once, clamping each axis
    /// independently: neither axis's clamping affects the other.
    pub fn travel(&mut self, x: i16, y: i16)
        requires
            old(self).wf(),
        ensures
            final(self).position.0 == Self::travel_axis(
                old(self).position.0,
                old(self).max.0,
                x as int,
            ),
            final(self).position.1 == Self::travel_axis(
                old(self).position.1,
                old(self).max.1,
                y as int,
            ),
            final(self).max == old(self).max,
            final(self).wf(),
    {
        let nx: u16 = if x > 0 {
            let dest = self.position.0.saturating_add(x as u16);
            if self.check_x(dest) {
                dest
            } else {
                self.max.0
            }
        } else if x < 0 {
            let step = (-(x as i32)) as u16;
            if step <= self.position.0 {
                self.position.0 - step
            } else {
                0
            }
        } else {
            self.position.0
        };
        let ny: u16 = if y > 0 {
            let dest = self.position.1.saturating_add(y as u16);
            if self.check_y(dest) {
                dest
            } else {
                self.max.1
            }
        } else if y < 0 {
            let step = (-(y as i32)) as u16;
            if step <= self.position.1 {
                self.position.1 - step
            } else {
                0
            }
        } else {
            self.position.1
        };
        self.position = (nx, ny);
    }

    /// Jump to a given position, clamping each coordinate from above.
    pub fn move_to(&mut self, x: u16, y: u16)
        ensures
            final(self).position.0 == if x <= old(self).max.0 {
                x as int
            } else {
                old(self).max.0 as int
            },
            final(self).position.1 == if y <= old(self).max.1 {
                y as int
            } else {
                old(self).max.1 as int
            },
            final(self).max == old(self).max,
            final(self).wf(),
    {
        let nx = if self.check_x(x) {
            x
        } else {
            self.max.0
        };
        let ny = if self.check_y(y) {
            y
        } else {
            self.max.1
        };
        self.position = (nx, ny);
    }

    /// Update the bounds after a viewport resize, clamping the position into
    /// the new bounds.
    pub fn resize(&mut self, max_x: u16, max_y: u16)
        ensures
            final(self).max == (max_x, max_y),
            final(self).position.0 == if old(self).position.0 <= max_x {
                old(self).position.0 as int
            } else {
                max_x as int
            },
            final(self).position.1 == if old(self).position.1 <= max_y {
                old(self).position.1 as int
            } else {
                max_y as int
            },
            final(self).wf(),
    {
        self.max = (max_x, max_y);
        let nx = if self.position.0 <= max_x {
            self.position.0
        } else {
            max_x
        };
        let ny = if self.position.1 <= max_y {
            self.position.1
        } else {
            max_y
        };
        self.position = (nx, ny);
    }
}

/// The navigation bar state read by the rendering shell.
#[derive(Clone, Copy, Debug, PartialEq, Eq, Structural)]
pub struct TuiNavbar {
    pub show_tabs: bool,
}

impl TuiNavbar {
    /// A fresh navigation bar with the tab list shown.
    pub fn new() -> (r: TuiNavbar)
        ensures
            r.show_tabs,
    {
        TuiNavbar { show_tabs: true }
    }

    /// The rows the bar needs on screen: one for the command line, and one
    /// more when the tab list is shown.
    pub fn bar_height(&self) -> (r: u16)
        ensures
            r == if self.show_tabs {
                2int
            } else {
                1int
            },
    {
        if self.show_tabs {
            2
        } else {
            1
        }
    }
}

/// The error of a tab update whose identifier matches no open tab.
#[derive(Clone, Copy, Debug, PartialEq, Eq, Structural)]
pub enum TabError {
    NoSuchTab,
}

/// One open tab: the backend's identifier for it, its title, its collapsed
/// page content, and the navigation regions isolated out of that content.
pub struct TuiTab {
    pub id: String,
    pub title: String,
    pub dom: Vec<TuiNode>,
    pub nav: Vec<TuiNode>,
}

impl TuiTab {
    /// A fresh tab with no content.
    pub fn new(id: &str, title: &str) -> (r: TuiTab)
        ensures
            r.id@ == id@,
            r.title@ == title@,
            r.dom@.len() == 0,
            r.nav@.len() == 0,
    {
        TuiTab { id: id.to_owned(), title: title.to_owned(), dom: Vec::new(), nav: Vec::new() }
    }

    /// Replace the tab's content with a freshly mapped display tree: the
    /// tree is collapsed, the title updated, and the layout rebuilt, which
    /// isolates navigation chrome out of the content.
    pub fn update(&mut self, dom: TuiNode, title: &str)
        ensures
            final(self).id == old(self).id,
            final(self).title@ == title@,
            tui_forest_view(final(self).dom@) == isolate_forest(collapse_spec(dom@)).0,
            tui_forest_view(final(self).nav@) == isolate_forest(collapse_spec(dom@)).1,
    {
        self.dom = dom.collapse_phantoms();
        self.update_name(Some(title));
        self.update_layout();
    }

    /// Set the tab's title; with nothing given the title is left alone.
    pub fn update_name(&mut self, name: Option<&str>)
        ensures
            final(self).id == old(self).id,
            final(self).dom == old(self).dom,
            final(self).nav == old(self).nav,
            match name {
                Some(n) => final(self).title@ == n@,
                None => final(self).title == old(self).title,
            },
    {
        if let Some(name) = name {
            self.title = name.to_owned();
        }
    }

    /// Rebuild the tab's layout: navigation chrome is isolated out of the
    /// content forest and kept separately, in the order met top-down.
    pub fn update_layout(&mut self)
        ensures
            final(self).id == old(self).id,
            final(self).title == old(self).title,
            tui_forest_view(final(self).dom@) == isolate_forest(
                tui_forest_view(old(self).dom@),
            ).0,
            tui_forest_view(final(self).nav@) == isolate_forest(
                tui_forest_view(old(self).dom@),
            ).1,
    {
        let mut taken: Vec<TuiNode> = Vec::new();
        core::mem::swap(&mut self.dom, &mut taken);
        let (content, navs) = isolate_nav_forest(taken);
        self.dom = content;
        self.nav = navs;
    }
}

/// The first position of a tab with the given identifier, `-1` if no open
/// tab carries it.
pub open spec fn tab_index(tabs: Seq<TuiTab>, id: Seq<char>) -> int
    decreases tabs,
{
    if tabs.len() == 0 {
        -1
    } else if tabs.first().id@ == id {
        0
    } else {
        let r = tab_index(tabs.drop_first(), id);
        if r == -1 {
            -1
        } else {
            r + 1
        }
    }
}

/// What `tab_index` finds: either no tab matches, or the index names the
/// first matching tab.
pub proof fn lemma_tab_index(tabs: Seq<TuiTab>, id: Seq<char>)
    ensures
        tab_index(tabs, id) == -1 ==> forall|j: int| 0 <= j < tabs.len() ==> tabs[j].id@ != id,
        tab_index(tabs, id) != -1 ==> {
            let ti = tab_index(tabs, id);
            &&& 0 <= ti < tabs.len()
            &&& tabs[ti].id@ == id
            &&& forall|j: int| 0 <= j < ti ==> tabs[j].id@ != id
        },
    decreases tabs,
{
    if tabs.len() > 0 && tabs.first().id@ != id {
        let rest = tabs.drop_first();
        lemma_tab_index(rest, id);
        assert(forall|j: int| 1 <= j < tabs.len() ==> tabs[j] == rest[j - 1]);
    }
}

/// The deltas that one directional step asks of the cursor: the vertical
/// axis counts upward.
pub open spec fn direction_deltas(d: CursorDirection) -> (int, int) {
    match d {
        CursorDirection::Up => (0, 1),
        CursorDirection::Down => (0, -1),
        CursorDirection::Left => (-1, 0),
        CursorDirection::Right => (1, 0),
    }
}

/// The visual state of the interface: the navigation bar, the open tabs,
/// which of them is current, and the viewport cursor.
pub struct TuiDisplay {
    pub navbar: TuiNavbar,
    pub tabs: Vec<TuiTab>,
    pub current_tab: usize,
    pub cursor: TuiCursor,
}

impl TuiDisplay {
    /// A fresh display: no tabs, the first position current, the cursor at
    /// its fixed initial position.
    pub fn new() -> (r: TuiDisplay)
        ensures
            r.tabs@.len() == 0,
            r.current_tab == 0,
            r.navbar.show_tabs,
            r.cursor.position == (1u16, 1u16),
            r.cursor.max == (1u16, 1u16),
            r.cursor.wf(),
    {
        TuiDisplay {
            navbar: TuiNavbar::new(),
            tabs: Vec::new(),
            current_tab: 0,
            cursor: TuiCursor::new(),
        }
    }

    /// The titles of all open tabs, in order.
    pub fn tab_titles(&self) -> (r: Vec<String>)
        ensures
            r@.len() == self.tabs@.len(),
            forall|i: int| 0 <= i < r@.len() ==> r@[i] == self.tabs@[i].title,
    {
        let mut titles: Vec<String> = Vec::new();
        let mut i: usize = 0;
        while i < self.tabs.len()
            invariant
                0 <= i <= self.tabs@.len(),
                titles@.len() == i,
                forall|j: int| 0 <= j < i ==> titles@[j] == self.tabs@[j].title,
            decreases self.tabs@.len() - i,
        {
            titles.push(self.tabs[i].title.clone());
            i = i + 1;
        }
        titles
    }

    /// The titles of all open tabs, in order.
    pub fn tab_names(&self) -> (r: Vec<String>)
        ensures
            r@.len() == self.tabs@.len(),
            forall|i: int| 0 <= i < r@.len() ==> r@[i] == self.tabs@[i].title,
    {
        self.tab_titles()
    }

    /// Open a new empty tab at the end of the register.
    pub fn new_tab(&mut self, id: &str, title: &str)
        ensures
            final(self).tabs@.len() == old(self).tabs@.len() + 1,
            forall|j: int|
                0 <= j < old(self).tabs@.len() ==> final(self).tabs@[j] == old(self).tabs@[j],
            final(self).tabs@.last().id@ == id@,
            final(self).tabs@.last().title@ == title@,
            final(self).tabs@.last().dom@.len() == 0,
            final(self).tabs@.last().nav@.len() == 0,
            final(self).navbar == old(self).navbar,
            final(self).current_tab == old(self).current_tab,
            final(self).cursor == old(self).cursor,
    {
        self.tabs.push(TuiTab::new(id, title));
    }

    /// Bring one open tab up to date with a freshly mapped display tree.
    /// The tab is found by its identifier; an identifier matching no open
    /// tab is a reported error, never a panic, and changes nothing.
    pub fn update_tab(&mut self, id: &str, dom: TuiNode, title: &str) -> (r: Result<
        (),
        TabError,
    >)
        ensures
            final(self).navbar == old(self).navbar,
            final(self).current_tab == old(self).current_tab,
            final(self).cursor == old(self).cursor,
            tab_index(old(self).tabs@, id@) == -1 ==> {
                &&& r matches Err(e) && e == TabError::NoSuchTab
                &&& final(self).tabs == old(self).tabs
            },
            tab_index(old(self).tabs@, id@) != -1 ==> {
                let ti = tab_index(old(self).tabs@, id@);
                &&& r matches Ok(u) && u == ()
                &&& final(self).tabs@.len() == old(self).tabs@.len()
                &&& forall|j: int|
                    0 <= j < old(self).tabs@.len() && j != ti ==> final(self).tabs@[j] == old(
                        self,
                    ).tabs@[j]
                &&& final(self).tabs@[ti].id@ == id@
                &&& final(self).tabs@[ti].title@ == title@
                &&& tui_forest_view(final(self).tabs@[ti].dom@) == isolate_forest(
                    collapse_spec(dom@),
                ).0
                &&& tui_forest_view(final(self).tabs@[ti].nav@) == isolate_forest(
                    collapse_spec(dom@),
                ).1
            },
    {
        let key: String = id.to_owned();
        let n = self.tabs.len();
        let mut idx: usize = n;
        let mut i: usize = 0;
        while i < n
            invariant
                n == self.tabs@.len(),
                0 <= i <= n,
                idx <= n,
                key@ == id@,
                idx == n ==> forall|j: int| 0 <= j < i ==> self.tabs@[j].id@ != key@,
                idx < n ==> {
                    &&& (idx as int) < i
                    &&& self.tabs@[idx as int].id@ == key@
                    &&& forall|j: int| 0 <= j < idx ==> self.tabs@[j].id@ != key@
                },
            decreases n - i,
        {
            if idx == n {
                if self.tabs[i].id == key {
                    idx = i;
                }
            }
            i = i + 1;
        }
        proof {
            lemma_tab_index(self.tabs@, id@);
        }
        if idx == n {
            Err(TabError::NoSuchTab)
        } else {
            let mut tab = TuiTab::new(id, title);
            tab.update(dom, title);
            self.tabs.set(idx, tab);
            Ok(())
        }
    }

    /// The cursor consulted by the rendering shell.
    pub fn cursor(&self) -> (r: &TuiCursor)
        ensures
            *r == self.cursor,
    {
        &self.cursor
    }

    /// Move the cursor one step in a direction, clamped at the bounds.
    pub fn move_cursor(&mut self, direction: CursorDirection)
        requires
            old(self).cursor.wf(),
        ensures
            final(self).cursor.position.0 == TuiCursor::travel_axis(
                old(self).cursor.position.0,
                old(self).cursor.max.0,
                direction_deltas(direction).0,
            ),
            final(self).cursor.position.1 == TuiCursor::travel_axis(
                old(self).cursor.position.1,
                old(self).cursor.max.1,
                direction_deltas(direction).1,
            ),
            final(self).cursor.max == old(self).cursor.max,
            final(self).cursor.wf(),
            final(self).navbar == old(self).navbar,
            final(self).tabs == old(self).tabs,
            final(self).current_tab == old(self).current_tab,
    {
        match direction {
            CursorDirection::Up => self.cursor.travel(0, 1),
            CursorDirection::Down => self.cursor.travel(0, -1),
            CursorDirection::Left => self.cursor.travel(-1, 0),
            CursorDirection::Right => self.cursor.travel(1, 0),
        }
    }

    /// Move the cursor several steps at once in a direction, clamped at the
    /// bounds; a speed beyond the signed step range is cut to that range.
    pub fn fast_cursor(&mut self, direction: CursorDirection, speed: u16)
        requires
            old(self).cursor.wf(),
        ensures
            ({
                let m = if speed <= 32767 {
                    speed as int
                } else {
                    32767int
                };
                &&& final(self).cursor.position.0 == TuiCursor::travel_axis(
                    old(self).cursor.position.0,
                    old(self).cursor.max.0,
                    m * direction_deltas(direction).0,
                )
                &&& final(self).cursor.position.1 == TuiCursor::travel_axis(
                    old(self).cursor.position.1,
                    old(self).cursor.max.1,
                    m * direction_deltas(direction).1,
                )
            }),
            final(self).cursor.max == old(self).cursor.max,
            final(self).cursor.wf(),
            final(self).navbar == old(self).navbar,
            final(self).tabs == old(self).tabs,
            final(self).current_tab == old(self).current_tab,
    {
        let s: i16 = if speed <= 32767 {
            speed as i16
        } else {
            32767
        };
        proof {
            assert(s as int == if speed <= 32767 {
                speed as int
            } else {
                32767int
            });
            assert(s >= 0);
        }
        match direction {
            CursorDirection::Up => self.cursor.travel(0, s),
            CursorDirection::Down => self.cursor.travel(0, -s),
            CursorDirection::Left => self.cursor.travel(-s, 0),
            CursorDirection::Right => self.cursor.travel(s, 0),
        }
        proof {
            let m: int = if speed <= 32767 {
                speed as int
            } else {
                32767int
            };
            assert(m * 0int == 0int) by (nonlinear_arith);
            assert(m * 1int == m) by (nonlinear_arith);
            assert(m * (-1int) == -m) by (nonlinear_arith);
        }
    }
}

/// Clamped travel keeps every axis inside its bounds: from any position
/// within bounds, any delta lands in `[0, max]`.
pub proof fn lemma_travel_clamps(pos: u16, max: u16, delta: int)
    requires
        pos <= max,
    ensures
        0 <= TuiCursor::travel_axis(pos, max, delta) <= max,
{
}

/// Travel by a nonnegative delta never decreases a coordinate until it
/// reaches the axis maximum, and travel from the maximum stays there; so
/// repeated forward travel is monotone and stops at the bound.
pub proof fn lemma_travel_monotonic(pos: u16, max: u16, delta: int)
    requires
        pos <= max,
        delta >= 0,
    ensures
        pos <= TuiCursor::travel_axis(pos, max, delta) <= max,
        pos == max ==> TuiCursor::travel_axis(pos, max, delta) == max,
{
}

} // verus!
