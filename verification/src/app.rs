//! The navigation state machine. The application owns the forest, a
//! pre-order arena of its nodes with an expanded-node set and a highlighted
//! entry, the active screen, the per-screen sub-states, and the summary of
//! the last operation. Key input is routed here; external commands are
//! never run here — a key that commits an operation yields a plan for the
//! caller to perform, and the caller reports the summary back.

use vstd::prelude::*;
use crate::command::{create_worktree_plan, delete_repo_plan, delete_worktree_plan,
    is_create_worktree_plan, is_delete_repo_plan, is_delete_worktree_plan, is_plain_repo_plan,
    is_worktree_repo_plan, plain_repo_plan, spec_effective_repo_name, worktree_repo_plan,
    OrchPlan};
use crate::keys::InputKey;
use crate::multi_input::MultiInputState;
use crate::project_item::{ProjectItem, ProjectItemType, ProjectNode};
use crate::screen::Screen;
use crate::switch_screen::{ScreenSwitcherState, ScreenSwitcherStateBuilder};

verus! {

/// One entry of the pre-order arena: a node's item, the arena index of its
/// parent (none for a top-level node), and whether it has children.
pub struct FlatEntry {
    pub item: ProjectItem,
    pub parent: Option<usize>,
    pub has_children: bool,
}

/// Every parent link points strictly backwards: the arena is in pre-order.
pub open spec fn flat_wf(flat: Seq<FlatEntry>) -> bool {
    forall|i: int|
        0 <= i < flat.len() ==> ((#[trigger] flat[i].parent) matches Some(p) ==> p < i)
}

/// The items of a forest in pre-order: each node right before its
/// descendants, siblings in configuration order.
pub open spec fn items_preorder(nodes: Seq<ProjectNode>) -> Seq<ProjectItem>
    decreases nodes,
{
    if nodes.len() == 0 {
        Seq::empty()
    } else {
        items_preorder(nodes.drop_last()) + seq![nodes.last().item] + items_preorder(
            nodes.last().children@,
        )
    }
}

/// The items the arena holds, in arena order.
pub open spec fn flat_items(s: Seq<FlatEntry>) -> Seq<ProjectItem> {
    Seq::new(s.len(), |i: int| s[i].item)
}

/// Whether entry `i` is visible: every ancestor is expanded.
pub open spec fn visible_at(flat: Seq<FlatEntry>, expanded: Seq<bool>, i: int) -> bool
    decreases i,
{
    match flat[i].parent {
        None => true,
        Some(p) => if 0 <= p < i {
            expanded[p as int] && visible_at(flat, expanded, p as int)
        } else {
            false
        },
    }
}

/// The first visible entry after `from`, if any.
pub open spec fn next_visible(flat: Seq<FlatEntry>, expanded: Seq<bool>, from: int) -> Option<
    int,
>
    decreases flat.len() - from,
{
    if from + 1 >= flat.len() {
        None
    } else if visible_at(flat, expanded, from + 1) {
        Some(from + 1)
    } else {
        next_visible(flat, expanded, from + 1)
    }
}

/// The last visible entry before `from`, if any.
pub open spec fn prev_visible(flat: Seq<FlatEntry>, expanded: Seq<bool>, from: int) -> Option<
    int,
>
    decreases from,
{
    if from <= 0 {
        None
    } else if visible_at(flat, expanded, from - 1) {
        Some(from - 1)
    } else {
        prev_visible(flat, expanded, from - 1)
    }
}

/// Visibility of entry `i` reads only the expanded flags of entries before
/// `i`.
pub proof fn lemma_visible_depends_below(
    flat: Seq<FlatEntry>,
    e1: Seq<bool>,
    e2: Seq<bool>,
    i: int,
)
    requires
        forall|j: int| 0 <= j < i ==> e1[j] == e2[j],
    ensures
        visible_at(flat, e1, i) == visible_at(flat, e2, i),
    decreases i,
{
    match flat[i].parent {
        None => {},
        Some(p) => {
            if 0 <= p < i {
                lemma_visible_depends_below(flat, e1, e2, p as int);
            }
        },
    }
}

/// Appends the pre-order arena entries of `n` and its descendants.
fn flatten_into(n: &ProjectNode, parent: Option<usize>, flat: &mut Vec<FlatEntry>)
    requires
        flat_wf(old(flat)@),
        (parent matches Some(p) ==> p < old(flat)@.len()),
    ensures
        flat_wf(final(flat)@),
        final(flat)@.len() > old(flat)@.len(),
        final(flat)@.subrange(0, old(flat)@.len() as int) == old(flat)@,
        final(flat)@[old(flat)@.len() as int].item == n.item,
        final(flat)@[old(flat)@.len() as int].parent == parent,
        final(flat)@[old(flat)@.len() as int].has_children == (n.children@.len() > 0),
        flat_items(final(flat)@.skip(old(flat)@.len() as int)) =~= seq![n.item]
            + items_preorder(n.children@),
    decreases *n,
{
    let my_idx = flat.len();
    let has_children = n.children.len() > 0;
    flat.push(FlatEntry { item: n.item.clone(), parent, has_children });
    proof {
        assert(flat@.subrange(0, my_idx as int) =~= old(flat)@);
        assert(flat_items(flat@.skip(my_idx as int)) =~= seq![n.item] + items_preorder(
            n.children@.subrange(0, 0),
        ));
    }
    let mut j: usize = 0;
    while j < n.children.len()
        invariant
            j <= n.children@.len(),
            my_idx < flat@.len(),
            flat_wf(flat@),
            flat@.subrange(0, my_idx as int) =~= old(flat)@,
            flat@[my_idx as int].item == n.item,
            flat@[my_idx as int].parent == parent,
            flat@[my_idx as int].has_children == (n.children@.len() > 0),
            flat_items(flat@.skip(my_idx as int)) =~= seq![n.item] + items_preorder(
                n.children@.subrange(0, j as int),
            ),
        decreases n.children@.len() - j,
    {
        let ghost before = flat@;
        flatten_into(&n.children[j], Some(my_idx), flat);
        proof {
            assert(flat@.subrange(0, my_idx as int) =~= before.subrange(0, my_idx as int));
            assert(flat@.skip(my_idx as int) =~= before.skip(my_idx as int) + flat@.skip(
                before.len() as int,
            ));
            assert(flat_items(flat@.skip(my_idx as int)) =~= flat_items(before.skip(
                my_idx as int,
            )) + flat_items(flat@.skip(before.len() as int)));
            assert(n.children@.subrange(0, j + 1).drop_last() =~= n.children@.subrange(
                0,
                j as int,
            ));
            assert(n.children@.subrange(0, j + 1).last() == n.children@[j as int]);
            assert(flat_items(flat@.skip(my_idx as int)) =~= seq![n.item] + items_preorder(
                n.children@.subrange(0, j + 1),
            ));
        }
        j = j + 1;
    }
    proof {
        assert(n.children@.subrange(0, n.children@.len() as int) =~= n.children@);
    }
}

/// The pre-order arena of a whole forest. It is empty exactly for an empty
/// forest, and its first entry is a top-level node.
pub fn flatten_forest(forest: &Vec<ProjectNode>) -> (flat: Vec<FlatEntry>)
    ensures
        flat_wf(flat@),
        flat@.len() == 0 <==> forest@.len() == 0,
        forest@.len() > 0 ==> flat@[0].parent is None && flat@[0].item == forest@[0].item,
        flat_items(flat@) =~= items_preorder(forest@),
{
    let mut flat: Vec<FlatEntry> = Vec::new();
    proof {
        assert(flat_items(flat@) =~= items_preorder(forest@.subrange(0, 0)));
    }
    let mut i: usize = 0;
    while i < forest.len()
        invariant
            i <= forest@.len(),
            flat_wf(flat@),
            i == 0 ==> flat@.len() == 0,
            i > 0 ==> flat@.len() > 0 && flat@[0].parent is None && flat@[0].item
                == forest@[0].item,
            flat_items(flat@) =~= items_preorder(forest@.subrange(0, i as int)),
        decreases forest@.len() - i,
    {
        let ghost before = flat@;
        flatten_into(&forest[i], None, &mut flat);
        proof {
            if i > 0 {
                assert(flat@[0] == before[0]);
            } else {
                assert(flat@[0] == flat@.subrange(before.len() as int, flat@.len() as int)[0]);
            }
            assert(flat@ =~= before + flat@.skip(before.len() as int));
            assert(flat_items(flat@) =~= flat_items(before) + flat_items(flat@.skip(
                before.len() as int,
            )));
            assert(forest@.subrange(0, i + 1).drop_last() =~= forest@.subrange(0, i as int));
            assert(forest@.subrange(0, i + 1).last() == forest@[i as int]);
            assert(flat_items(flat@) =~= items_preorder(forest@.subrange(0, i + 1)));
        }
        i = i + 1;
    }
    proof {
        assert(forest@.subrange(0, forest@.len() as int) =~= forest@);
    }
    flat
}

/// Whether entry `i` of the arena is visible under the expanded set.
fn is_visible(flat: &Vec<FlatEntry>, expanded: &Vec<bool>, i: usize) -> (r: bool)
    requires
        flat_wf(flat@),
        expanded@.len() == flat@.len(),
        i < flat@.len(),
    ensures
        r == visible_at(flat@, expanded@, i as int),
{
    let mut cur = i;
    loop
        invariant
            cur < flat@.len(),
            flat_wf(flat@),
            expanded@.len() == flat@.len(),
            visible_at(flat@, expanded@, i as int) == visible_at(flat@, expanded@, cur as int),
        decreases cur,
    {
        match flat[cur].parent {
            None => {
                return true;
            },
            Some(p) => {
                if !expanded[p] {
                    return false;
                }
                cur = p;
            },
        }
    }
}

/// What a key press asks the caller to do next: keep looping, quit, rebuild
/// the forest and start over, or perform the given plan and report its
/// summary back through `apply_summary`.
pub enum KeyOutcome {
    Continue,
    Quit,
    Restart,
    Run(OrchPlan),
}

/// The navigation state machine.
pub struct App {
    pub project_tree: Vec<ProjectNode>,
    pub flat: Vec<FlatEntry>,
    pub expanded: Vec<bool>,
    pub cursor: usize,
    pub app_screen: Screen,
    pub input_state: Option<MultiInputState>,
    pub screen_switch_state: Option<ScreenSwitcherState>,
    pub summary_text: Vec<String>,
}

impl App {
    /// The arena is in pre-order with one expanded flag per entry, the
    /// highlighted entry is always visible, and each live sub-state is
    /// well-formed — the text capture always with its two fields.
    pub open spec fn wf(&self) -> bool {
        &&& flat_wf(self.flat@)
        &&& self.expanded@.len() == self.flat@.len()
        &&& self.flat@.len() > 0 ==> self.cursor < self.flat@.len() && visible_at(
            self.flat@,
            self.expanded@,
            self.cursor as int,
        )
        &&& self.flat@.len() == 0 ==> self.cursor == 0
        &&& (self.screen_switch_state matches Some(s) ==> s.wf())
        &&& (self.input_state matches Some(s) ==> s.wf() && s.boxes@.len() == 2)
    }

    /// Seeds the state machine with a freshly built forest: everything
    /// collapsed, the first entry highlighted, the main screen active.
    pub fn with_forest(forest: Vec<ProjectNode>) -> (r: App)
        ensures
            r.wf(),
            r.app_screen == Screen::Main,
            r.project_tree == forest,
            r.input_state is None,
            r.screen_switch_state is None,
            r.summary_text@.len() == 0,
            r.cursor == 0,
            flat_items(r.flat@) =~= items_preorder(forest@),
    {
        let flat = flatten_forest(&forest);
        let n = flat.len();
        let expanded: Vec<bool> = vec![false; n];
        App {
            project_tree: forest,
            flat,
            expanded,
            cursor: 0,
            app_screen: Screen::Main,
            input_state: None,
            screen_switch_state: None,
            summary_text: Vec::new(),
        }
    }

    /// Moves the highlight to the next visible entry; at the bottom it
    /// stays put.
    pub fn select_next(&mut self)
        requires
            old(self).wf(),
        ensures
            final(self).wf(),
            *final(self) == (App { cursor: final(self).cursor, ..*old(self) }),
            old(self).flat@.len() > 0 ==> final(self).cursor as int == (match next_visible(
                old(self).flat@,
                old(self).expanded@,
                old(self).cursor as int,
            ) {
                Some(j) => j,
                None => old(self).cursor as int,
            }),
            old(self).flat@.len() == 0 ==> final(self).cursor == old(self).cursor,
    {
        if self.flat.len() == 0 {
            return ;
        }
        let mut j: usize = self.cursor + 1;
        while j < self.flat.len()
            invariant
                *self == *old(self),
                self.cursor < j,
                j <= self.flat@.len(),
                self.wf(),
                self.flat@.len() > 0,
                next_visible(self.flat@, self.expanded@, self.cursor as int) == next_visible(
                    self.flat@,
                    self.expanded@,
                    j - 1,
                ),
            decreases self.flat@.len() - j,
        {
            if is_visible(&self.flat, &self.expanded, j) {
                self.cursor = j;
                return ;
            }
            j = j + 1;
        }
    }

    /// Moves the highlight to the previous visible entry; at the top it
    /// stays put.
    pub fn select_prev(&mut self)
        requires
            old(self).wf(),
        ensures
            final(self).wf(),
            *final(self) == (App { cursor: final(self).cursor, ..*old(self) }),
            old(self).flat@.len() > 0 ==> final(self).cursor as int == (match prev_visible(
                old(self).flat@,
                old(self).expanded@,
                old(self).cursor as int,
            ) {
                Some(j) => j,
                None => old(self).cursor as int,
            }),
            old(self).flat@.len() == 0 ==> final(self).cursor == old(self).cursor,
    {
        if self.flat.len() == 0 {
            return ;
        }
        let mut j: usize = self.cursor;
        while j > 0
            invariant
                *self == *old(self),
                j <= self.cursor,
                self.wf(),
                self.flat@.len() > 0,
                prev_visible(self.flat@, self.expanded@, self.cursor as int) == prev_visible(
                    self.flat@,
                    self.expanded@,
                    j as int,
                ),
            decreases j,
        {
            if is_visible(&self.flat, &self.expanded, j - 1) {
                self.cursor = j - 1;
                return ;
            }
            j = j - 1;
        }
    }

    /// Expands or collapses the highlighted node if it has children; a
    /// no-op on leaves and on an empty forest. The highlight itself stays
    /// visible: collapsing hides only descendants.
    pub fn toggle_selected(&mut self)
        requires
            old(self).wf(),
        ensures
            final(self).wf(),
            *final(self) == (App { expanded: final(self).expanded, ..*old(self) }),
            old(self).flat@.len() > 0 && old(self).flat@[old(self).cursor as int].has_children
                ==> final(self).expanded@ == old(self).expanded@.update(
                old(self).cursor as int,
                !old(self).expanded@[old(self).cursor as int],
            ),
            !(old(self).flat@.len() > 0 && old(self).flat@[old(
                self,
            ).cursor as int].has_children) ==> final(self).expanded == old(self).expanded,
    {
        if self.flat.len() == 0 {
            return ;
        }
        let c = self.cursor;
        if self.flat[c].has_children {
            let cur_val = self.expanded[c];
            let ghost before = self.expanded@;
            let e = &mut self.expanded[c];
            *e = !cur_val;
            proof {
                assert(self.expanded@ =~= before.update(c as int, !before[c as int]));
                lemma_visible_depends_below(self.flat@, before, self.expanded@, c as int);
            }
        }
    }

    /// Prepares the active screen's sub-state before a frame: the main
    /// screen drops both sub-states, and each create screen lazily
    /// allocates its text capture. Entering an already-active create
    /// screen never resets typed input.
    pub fn initialise_screen(&mut self)
        requires
            old(self).wf(),
        ensures
            final(self).wf(),
            final(self).app_screen == old(self).app_screen,
            final(self).project_tree == old(self).project_tree,
            final(self).flat == old(self).flat,
            final(self).expanded == old(self).expanded,
            final(self).cursor == old(self).cursor,
            final(self).summary_text == old(self).summary_text,
            old(self).app_screen == Screen::Main ==> (final(self).input_state is None && final(self).screen_switch_state is None),
            old(self).app_screen != Screen::Main ==> final(self).screen_switch_state == old(self).screen_switch_state,
            old(self).app_screen != Screen::Main && old(self).input_state is Some ==> final(self).input_state == old(self).input_state,
            old(self).app_screen == Screen::WorktreeCreate && old(self).input_state is None ==> (final(self).input_state matches Some(st) && st.title@ == " Create New Branch as Worktree "@ && st.idx == 0 && st.boxes@.len() == 2 && st.boxes@[0].prompt@ == "Branch Name"@ && st.boxes@[1].prompt@ == "Directory Name (blank for default)"@ && st.contents()[0] == Seq::<char>::empty() && st.contents()[1] == Seq::<char>::empty()),
            old(self).app_screen == Screen::WorktreeRepoCreate && old(self).input_state is None ==> (final(self).input_state matches Some(st) && st.title@ == " Create new Worktree Branch "@ && st.idx == 0 && st.boxes@.len() == 2 && st.boxes@[0].prompt@ == "Repo Link"@ && st.boxes@[1].prompt@ == "Directory Name (blank for default)"@ && st.contents()[0] == Seq::<char>::empty() && st.contents()[1] == Seq::<char>::empty()),
            old(self).app_screen == Screen::NonWorktreeRepoCreate && old(self).input_state is None ==> (final(self).input_state matches Some(st) && st.title@ == " Create Non-Worktree Repo "@ && st.idx == 0 && st.boxes@.len() == 2 && st.boxes@[0].prompt@ == "Repo Link"@ && st.boxes@[1].prompt@ == "Directory Name (blank for default)"@ && st.contents()[0] == Seq::<char>::empty() && st.contents()[1] == Seq::<char>::empty()),
            (old(self).app_screen != Screen::Main && old(self).app_screen != Screen::WorktreeCreate && old(self).app_screen != Screen::WorktreeRepoCreate && old(self).app_screen != Screen::NonWorktreeRepoCreate) ==> final(self).input_state == old(self).input_state,
    {
        match self.app_screen {
            Screen::Main => {
                self.input_state = None;
                self.screen_switch_state = None;
            },
            Screen::WorktreeCreate => {
                if self.input_state.is_none() {
                    let mut prompts: Vec<String> = Vec::new();
                    prompts.push("Branch Name".to_owned());
                    prompts.push("Directory Name (blank for default)".to_owned());
                    self.input_state = Some(
                        MultiInputState::new(" Create New Branch as Worktree ".to_owned(), prompts),
                    );
                }
            },
            Screen::WorktreeRepoCreate => {
                if self.input_state.is_none() {
                    let mut prompts: Vec<String> = Vec::new();
                    prompts.push("Repo Link".to_owned());
                    prompts.push("Directory Name (blank for default)".to_owned());
                    self.input_state = Some(
                        MultiInputState::new(" Create new Worktree Branch ".to_owned(), prompts),
                    );
                }
            },
            Screen::NonWorktreeRepoCreate => {
                if self.input_state.is_none() {
                    let mut prompts: Vec<String> = Vec::new();
                    prompts.push("Repo Link".to_owned());
                    prompts.push("Directory Name (blank for default)".to_owned());
                    self.input_state = Some(
                        MultiInputState::new(" Create Non-Worktree Repo ".to_owned(), prompts),
                    );
                }
            },
            _ => {},
        }
    }

    /// Records an operation's summary and shows the summary screen.
    pub fn apply_summary(&mut self, lines: Vec<String>)
        requires
            old(self).wf(),
        ensures
            final(self).wf(),
            *final(self) == (App {
                app_screen: Screen::Summary,
                summary_text: lines,
                ..*old(self)
            }),
    {
        self.summary_text = lines;
        self.app_screen = Screen::Summary;
    }

    /// Routes a key once any active sub-widget has had its turn, and
    /// carries out the screen's own bindings: quitting, navigating the
    /// tree or the selector, classifying the delete request, confirming or
    /// declining a delete, and committing a menu choice or a create form.
    /// An operation is never run here: confirming yields the plan. The
    /// whole transition is `key_event_post`.
    pub fn handle_key_event(&mut self, k: InputKey) -> (r: KeyOutcome)
        requires
            old(self).wf(),
            old(self).app_screen != Screen::Summary,
        ensures
            final(self).wf(),
            key_event_post(*old(self), *final(self), k, r),
    {
        match k {
            InputKey::Esc => {
                match self.app_screen {
                    Screen::WorktreeRepoCreate | Screen::WorktreeCreate => {
                        self.input_state = None;
                        self.app_screen = Screen::Main;
                        KeyOutcome::Continue
                    },
                    Screen::ScreenSwitchMenu => {
                        self.screen_switch_state = None;
                        self.app_screen = Screen::Main;
                        KeyOutcome::Continue
                    },
                    Screen::Main => KeyOutcome::Quit,
                    _ => {
                        self.app_screen = Screen::Main;
                        KeyOutcome::Continue
                    },
                }
            },
            InputKey::Char('q') => {
                match self.app_screen {
                    Screen::ScreenSwitchMenu => {
                        self.screen_switch_state = None;
                        self.app_screen = Screen::Main;
                        KeyOutcome::Continue
                    },
                    Screen::Main => KeyOutcome::Quit,
                    _ => {
                        self.app_screen = Screen::Main;
                        KeyOutcome::Continue
                    },
                }
            },
            InputKey::Char('j') | InputKey::Down => {
                match self.app_screen {
                    Screen::Main => {
                        self.select_next();
                    },
                    Screen::ScreenSwitchMenu => {
                        match &mut self.screen_switch_state {
                            Some(s) => {
                                s.down();
                            },
                            None => {},
                        }
                    },
                    _ => {},
                }
                KeyOutcome::Continue
            },
            InputKey::Char('k') | InputKey::Up => {
                match self.app_screen {
                    Screen::Main => {
                        self.select_prev();
                    },
                    Screen::ScreenSwitchMenu => {
                        match &mut self.screen_switch_state {
                            Some(s) => {
                                s.up();
                            },
                            None => {},
                        }
                    },
                    _ => {},
                }
                KeyOutcome::Continue
            },
            InputKey::Char(' ') => {
                if self.app_screen == Screen::Main {
                    self.toggle_selected();
                }
                KeyOutcome::Continue
            },
            InputKey::Char('x') => {
                if self.app_screen != Screen::Main {
                    return KeyOutcome::Continue;
                }
                let selected = match self.get_selected_pt_item() {
                    Some(it) => it,
                    None => {
                        return KeyOutcome::Continue;
                    },
                };
                match selected.project_type {
                    ProjectItemType::WorktreeCheckout => {
                        self.app_screen = Screen::WorktreeDelete;
                    },
                    ProjectItemType::WorktreeContainerRepo => {
                        self.app_screen = Screen::WorktreeRepoDelete;
                    },
                    ProjectItemType::StandaloneRepo => {
                        self.app_screen = Screen::NonWorktreeRepoDelete;
                    },
                    ProjectItemType::ProjectDirectoryGroup => {},
                }
                KeyOutcome::Continue
            },
            InputKey::Char('y') => {
                match self.app_screen {
                    Screen::WorktreeDelete => {
                        let selected = match self.get_selected_pt_item() {
                            Some(it) => it,
                            None => {
                                return KeyOutcome::Continue;
                            },
                        };
                        KeyOutcome::Run(delete_worktree_plan(selected.path.as_str()))
                    },
                    Screen::WorktreeRepoDelete | Screen::NonWorktreeRepoDelete => {
                        let selected = match self.get_selected_pt_item() {
                            Some(it) => it,
                            None => {
                                return KeyOutcome::Continue;
                            },
                        };
                        KeyOutcome::Run(delete_repo_plan(selected.path.as_str()))
                    },
                    _ => KeyOutcome::Continue,
                }
            },
            InputKey::Char('n') => {
                match self.app_screen {
                    Screen::WorktreeDelete | Screen::WorktreeRepoDelete
                        | Screen::NonWorktreeRepoDelete => {
                        self.app_screen = Screen::Main;
                    },
                    _ => {},
                }
                KeyOutcome::Continue
            },
            InputKey::Enter => self.handle_enter(),
            _ => KeyOutcome::Continue,
        }
    }

    /// The activate binding. On the main screen it opens the menu the
    /// highlighted node's kind calls for; on the menu it commits to the
    /// highlighted option's screen; on a create screen it submits the
    /// captured text as a plan, or reports an uninterpretable link.
    fn handle_enter(&mut self) -> (r: KeyOutcome)
        requires
            old(self).wf(),
            old(self).app_screen != Screen::Summary,
        ensures
            final(self).wf(),
            key_event_post(*old(self), *final(self), InputKey::Enter, r),
    {
        match self.app_screen {
            Screen::Main => {
                let selected = match self.get_selected_pt_item() {
                    Some(it) => it,
                    None => {
                        return KeyOutcome::Continue;
                    },
                };
                match selected.project_type {
                    ProjectItemType::StandaloneRepo => {
                        self.screen_switch_state = Some(
                            ScreenSwitcherStateBuilder::new(" Project Menu ".to_owned())
                                .with_option(
                                "Delete Project".to_owned(),
                                Screen::NonWorktreeRepoDelete,
                            ).build(),
                        );
                        self.app_screen = Screen::ScreenSwitchMenu;
                    },
                    ProjectItemType::WorktreeCheckout => {
                        self.screen_switch_state = Some(
                            ScreenSwitcherStateBuilder::new(" Project Menu ".to_owned())
                                .with_option("Delete Project".to_owned(), Screen::WorktreeDelete)
                                .build(),
                        );
                        self.app_screen = Screen::ScreenSwitchMenu;
                    },
                    ProjectItemType::WorktreeContainerRepo => {
                        self.screen_switch_state = Some(
                            ScreenSwitcherStateBuilder::new(" Project Worktree Menu ".to_owned())
                                .with_option("New Branch As Worktree".to_owned(), Screen::WorktreeCreate)
                                .with_option("Delete Worktree".to_owned(), Screen::WorktreeRepoDelete)
                                .build(),
                        );
                        self.app_screen = Screen::ScreenSwitchMenu;
                    },
                    ProjectItemType::ProjectDirectoryGroup => {
                        self.screen_switch_state = Some(
                            ScreenSwitcherStateBuilder::new(" Project Worktree Menu ".to_owned())
                                .with_option(
                                "Checkout New Repo - Worktree Mode".to_owned(),
                                Screen::WorktreeRepoCreate,
                            ).with_option(
                                "Checkout New Repo - Non Worktree Mode".to_owned(),
                                Screen::NonWorktreeRepoCreate,
                            ).build(),
                        );
                        self.app_screen = Screen::ScreenSwitchMenu;
                    },
                }
                KeyOutcome::Continue
            },
            Screen::ScreenSwitchMenu => {
                match &self.screen_switch_state {
                    Some(state) => {
                        self.app_screen = state.target_screen();
                    },
                    None => {},
                }
                self.screen_switch_state = None;
                KeyOutcome::Continue
            },
            Screen::WorktreeCreate => {
                let (branch, chosen) = match &self.input_state {
                    Some(st) => (st.get_content_at(0), st.get_content_at(1)),
                    None => {
                        return KeyOutcome::Continue;
                    },
                };
                let selected = match self.get_selected_pt_item() {
                    Some(it) => it,
                    None => {
                        return KeyOutcome::Continue;
                    },
                };
                KeyOutcome::Run(
                    create_worktree_plan(selected.path.as_str(), branch.as_str(), chosen.as_str()),
                )
            },
            Screen::WorktreeRepoCreate => {
                let (link, chosen) = match &self.input_state {
                    Some(st) => (st.get_content_at(0), st.get_content_at(1)),
                    None => {
                        return KeyOutcome::Continue;
                    },
                };
                if chosen.as_str().is_empty() {
                    match crate::text::get_repo_name_from_git_link(link.as_str()) {
                        Ok(_) => {},
                        Err(e) => {
                            let mut lines: Vec<String> = Vec::new();
                            lines.push(e);
                            proof {
                                assert(lines.deep_view() =~= seq![
                                    crate::text::spec_link_error(link@),
                                ]);
                            }
                            self.summary_text = lines;
                            self.app_screen = Screen::Summary;
                            return KeyOutcome::Continue;
                        },
                    }
                }
                let selected = match self.get_selected_pt_item() {
                    Some(it) => it,
                    None => {
                        return KeyOutcome::Continue;
                    },
                };
                match worktree_repo_plan(selected.path.as_str(), link.as_str(), chosen.as_str()) {
                    Ok(plan) => KeyOutcome::Run(plan),
                    Err(lines) => {
                        self.summary_text = lines;
                        self.app_screen = Screen::Summary;
                        KeyOutcome::Continue
                    },
                }
            },
            Screen::NonWorktreeRepoCreate => {
                let (link, chosen) = match &self.input_state {
                    Some(st) => (st.get_content_at(0), st.get_content_at(1)),
                    None => {
                        return KeyOutcome::Continue;
                    },
                };
                if chosen.as_str().is_empty() {
                    match crate::text::get_repo_name_from_git_link(link.as_str()) {
                        Ok(_) => {},
                        Err(e) => {
                            let mut lines: Vec<String> = Vec::new();
                            lines.push(e);
                            proof {
                                assert(lines.deep_view() =~= seq![
                                    crate::text::spec_link_error(link@),
                                ]);
                            }
                            self.summary_text = lines;
                            self.app_screen = Screen::Summary;
                            return KeyOutcome::Continue;
                        },
                    }
                }
                let selected = match self.get_selected_pt_item() {
                    Some(it) => it,
                    None => {
                        return KeyOutcome::Continue;
                    },
                };
                match plain_repo_plan(selected.path.as_str(), link.as_str(), chosen.as_str()) {
                    Ok(plan) => KeyOutcome::Run(plan),
                    Err(lines) => {
                        self.summary_text = lines;
                        self.app_screen = Screen::Summary;
                        KeyOutcome::Continue
                    },
                }
            },
            _ => KeyOutcome::Continue,
        }
    }

    /// The highlighted project item, if the forest holds anything.
    pub fn get_selected_pt_item(&self) -> (r: Option<ProjectItem>)
        requires
            self.wf(),
        ensures
            r is Some <==> self.flat@.len() > 0,
            (r matches Some(it) ==> it == self.flat@[self.cursor as int].item),
    {
        if self.flat.len() == 0 {
            None
        } else {
            Some(self.flat[self.cursor].item.clone())
        }
    }

    /// One key press, routed as the run loop routes it: the summary screen
    /// is acknowledged first, then an active text capture consumes
    /// whatever is not `Esc` or `Enter`, and only then does the screen's
    /// own binding fire. Whenever the capture does not consume the key,
    /// the state and outcome are exactly `key_event_post`; whenever it
    /// does, the key reaches the focused buffer per `handle_event_post`
    /// and nothing else moves.
    pub fn handle_key(&mut self, k: InputKey) -> (r: KeyOutcome)
        requires
            old(self).wf(),
        ensures
            final(self).wf(),
            final(self).project_tree == old(self).project_tree,
            final(self).flat == old(self).flat,
            old(self).app_screen == Screen::Summary && (k == InputKey::Esc || k == InputKey::Char('q')) ==> (r is Quit && *final(self) == *old(self)),
            old(self).app_screen == Screen::Summary && !(k == InputKey::Esc || k == InputKey::Char('q')) ==> (r is Restart && *final(self) == (App { app_screen: Screen::Main, input_state: None, screen_switch_state: None, ..*old(self) })),
            r is Restart ==> old(self).app_screen == Screen::Summary,
            (retreat_screen(old(self).app_screen, k) matches Some(s) ==> final(self).app_screen == s),
            old(self).app_screen != Screen::Summary && (old(self).input_state is None || k == InputKey::Esc || k == InputKey::Enter) ==> key_event_post(*old(self), *final(self), k, r),
            old(self).input_state matches Some(st) ==> (old(self).app_screen != Screen::Summary && k != InputKey::Esc && k != InputKey::Enter ==> (r is Continue && *final(self) == (App { input_state: final(self).input_state, ..*old(self) }) && (final(self).input_state matches Some(st2) && crate::multi_input::handle_event_post(st, st2, k, false)))),
    {
        if self.app_screen == Screen::Summary {
            match k {
                InputKey::Esc | InputKey::Char('q') => KeyOutcome::Quit,
                _ => {
                    self.app_screen = Screen::Main;
                    self.input_state = None;
                    self.screen_switch_state = None;
                    KeyOutcome::Restart
                },
            }
        } else {
            let propagate = match &mut self.input_state {
                Some(st) => st.handle_event(&k),
                None => true,
            };
            proof {
                if old(self).input_state is Some && (k == InputKey::Esc || k == InputKey::Enter) {
                    assert(self.input_state == old(self).input_state);
                    assert(*self == *old(self));
                }
            }
            if propagate {
                self.handle_key_event(k)
            } else {
                KeyOutcome::Continue
            }
        }
    }
}

/// The three delete-confirmation screens.
pub open spec fn is_delete_screen(s: Screen) -> bool {
    ||| s == Screen::WorktreeDelete
    ||| s == Screen::WorktreeRepoDelete
    ||| s == Screen::NonWorktreeRepoDelete
}

/// The three create screens, each backed by a text capture.
pub open spec fn is_create_screen(s: Screen) -> bool {
    ||| s == Screen::WorktreeCreate
    ||| s == Screen::WorktreeRepoCreate
    ||| s == Screen::NonWorktreeRepoCreate
}

/// The keys that move a highlight.
pub open spec fn is_nav_key(k: InputKey) -> bool {
    ||| k == InputKey::Down
    ||| k == InputKey::Char('j')
    ||| k == InputKey::Up
    ||| k == InputKey::Char('k')
}

/// The keys the state machine itself acts on; every other key leaves it
/// untouched.
pub open spec fn routed_key(k: InputKey) -> bool {
    ||| k == InputKey::Esc
    ||| k == InputKey::Enter
    ||| is_nav_key(k)
    ||| k == InputKey::Char('q')
    ||| k == InputKey::Char(' ')
    ||| k == InputKey::Char('x')
    ||| k == InputKey::Char('y')
    ||| k == InputKey::Char('n')
}

/// The full transition one key makes through the screen's own bindings
/// (§4.2), relating the state before (`pre`) and after (`post`) and the
/// outcome `r`. `handle_key_event` realises exactly this, and `handle_key`
/// restates it whenever the text capture does not consume the key.
pub open spec fn key_event_post(pre: App, post: App, k: InputKey, r: KeyOutcome) -> bool {
    // the forest and its arena never change here
    &&& post.project_tree == pre.project_tree
    &&& post.flat == pre.flat
    // outcomes: quitting happens exactly on escape or 'q' from the main screen,
    // and restarting never happens here
    &&& (r is Quit <==> ((k == InputKey::Esc || k == InputKey::Char('q')) && pre.app_screen == Screen::Main))
    &&& !(r is Restart)
    &&& ((k == InputKey::Esc || k == InputKey::Char('q')) && pre.app_screen != Screen::Main ==> r is Continue)
    &&& ((is_nav_key(k) || k == InputKey::Char(' ') || k == InputKey::Char('x') || k == InputKey::Char('n')) ==> r is Continue)
    &&& (k == InputKey::Char('y') && !(is_delete_screen(pre.app_screen) && pre.flat@.len() > 0) ==> r is Continue)
    &&& (k == InputKey::Enter && (pre.app_screen == Screen::Main || pre.app_screen == Screen::ScreenSwitchMenu) ==> r is Continue)
    &&& (k == InputKey::Enter && is_create_screen(pre.app_screen) && pre.flat@.len() == 0 ==> r is Continue)
    &&& (!routed_key(k) ==> (post == pre && r is Continue))
    // the text capture changes only on escape, which drops it on the two
    // worktree-create screens
    &&& (k != InputKey::Esc ==> post.input_state == pre.input_state)
    &&& (k == InputKey::Esc && (pre.app_screen == Screen::WorktreeCreate || pre.app_screen == Screen::WorktreeRepoCreate) ==> post.input_state is None)
    &&& (k == InputKey::Esc && !(pre.app_screen == Screen::WorktreeCreate || pre.app_screen == Screen::WorktreeRepoCreate) ==> post.input_state == pre.input_state)
    // the summary changes only when a create form reports a bad link
    &&& (k != InputKey::Enter ==> post.summary_text == pre.summary_text)
    // the cursor moves only under a navigation key on the main screen
    &&& (!(is_nav_key(k) && pre.app_screen == Screen::Main) ==> post.cursor == pre.cursor)
    // the expanded set changes only when toggling a node with children
    &&& (pre.app_screen == Screen::Main && k == InputKey::Char(' ') && pre.flat@.len() > 0 && pre.flat@[pre.cursor as int].has_children ==> post.expanded@ == pre.expanded@.update(pre.cursor as int, !pre.expanded@[pre.cursor as int]))
    &&& (!(pre.app_screen == Screen::Main && k == InputKey::Char(' ') && pre.flat@.len() > 0 && pre.flat@[pre.cursor as int].has_children) ==> post.expanded == pre.expanded)
    // the selector changes only under escape, 'q', navigation or enter
    &&& (!(k == InputKey::Esc || k == InputKey::Char('q') || is_nav_key(k) || k == InputKey::Enter) ==> post.screen_switch_state == pre.screen_switch_state)
    &&& ((k == InputKey::Esc || k == InputKey::Char('q')) && pre.app_screen == Screen::ScreenSwitchMenu ==> post.screen_switch_state is None)
    &&& ((k == InputKey::Esc || k == InputKey::Char('q')) && pre.app_screen != Screen::ScreenSwitchMenu ==> post.screen_switch_state == pre.screen_switch_state)
    &&& (is_nav_key(k) && pre.app_screen != Screen::ScreenSwitchMenu ==> post.screen_switch_state == pre.screen_switch_state)
    &&& (is_nav_key(k) && pre.app_screen == Screen::ScreenSwitchMenu && pre.screen_switch_state is None ==> post.screen_switch_state is None)
    &&& (k == InputKey::Enter && pre.app_screen != Screen::Main && pre.app_screen != Screen::ScreenSwitchMenu ==> post.screen_switch_state == pre.screen_switch_state)
    // retreat: escape and 'q' land on the main screen
    &&& (k == InputKey::Esc ==> post.app_screen == Screen::Main)
    &&& (k == InputKey::Char('q') ==> post.app_screen == Screen::Main)
    // navigation: pre-order movement over the visible entries, or the
    // selector's circular movement
    &&& (pre.app_screen == Screen::Main && (k == InputKey::Down || k == InputKey::Char('j')) && pre.flat@.len() > 0 ==> post.cursor as int == (match next_visible(pre.flat@, pre.expanded@, pre.cursor as int) { Some(j) => j, None => pre.cursor as int }))
    &&& (pre.app_screen == Screen::Main && (k == InputKey::Up || k == InputKey::Char('k')) && pre.flat@.len() > 0 ==> post.cursor as int == (match prev_visible(pre.flat@, pre.expanded@, pre.cursor as int) { Some(j) => j, None => pre.cursor as int }))
    &&& (is_nav_key(k) ==> post.app_screen == pre.app_screen)
    &&& (pre.screen_switch_state matches Some(st) ==> (pre.app_screen == Screen::ScreenSwitchMenu && (k == InputKey::Down || k == InputKey::Char('j')) ==> ((post.screen_switch_state matches Some(st2) && st2.options == st.options && st2.title == st.title && (st.idx as int + 1 == st.options@.len() ==> st2.idx == 0) && (st.idx as int + 1 < st.options@.len() ==> st2.idx == st.idx + 1)))))
    &&& (pre.screen_switch_state matches Some(st) ==> (pre.app_screen == Screen::ScreenSwitchMenu && (k == InputKey::Up || k == InputKey::Char('k')) ==> ((post.screen_switch_state matches Some(st2) && st2.options == st.options && st2.title == st.title && (st.idx == 0 ==> st2.idx as int == st.options@.len() - 1) && (st.idx > 0 ==> st2.idx == st.idx - 1)))))
    // toggle: the screen never moves, and nothing else changes
    &&& (k == InputKey::Char(' ') ==> post.app_screen == pre.app_screen && post == (App { expanded: post.expanded, ..pre }))
    // delete request: the highlighted node's kind picks the screen, and
    // nothing else changes
    &&& (k == InputKey::Char('x') ==> post == (App { app_screen: post.app_screen, ..pre }))
    &&& (pre.app_screen == Screen::Main && k == InputKey::Char('x') && pre.flat@.len() > 0 ==> post.app_screen == (match pre.flat@[pre.cursor as int].item.project_type { ProjectItemType::WorktreeCheckout => Screen::WorktreeDelete, ProjectItemType::WorktreeContainerRepo => Screen::WorktreeRepoDelete, ProjectItemType::StandaloneRepo => Screen::NonWorktreeRepoDelete, ProjectItemType::ProjectDirectoryGroup => Screen::Main }))
    &&& (k == InputKey::Char('x') && !(pre.app_screen == Screen::Main && pre.flat@.len() > 0) ==> post.app_screen == pre.app_screen)
    // confirm: the state never changes; with a highlighted node the
    // matching delete plan comes back, with none nothing happens
    &&& (k == InputKey::Char('y') ==> post == pre)
    &&& (pre.app_screen == Screen::WorktreeDelete && k == InputKey::Char('y') && pre.flat@.len() > 0 ==> (r matches KeyOutcome::Run(p) && is_delete_worktree_plan(p, pre.flat@[pre.cursor as int].item.path@)))
    &&& ((pre.app_screen == Screen::WorktreeRepoDelete || pre.app_screen == Screen::NonWorktreeRepoDelete) && k == InputKey::Char('y') && pre.flat@.len() > 0 ==> (r matches KeyOutcome::Run(p) && is_delete_repo_plan(p, pre.flat@[pre.cursor as int].item.path@)))
    // decline: back to the main screen, nothing else changes
    &&& (k == InputKey::Char('n') ==> post == (App { app_screen: post.app_screen, ..pre }))
    &&& (is_delete_screen(pre.app_screen) && k == InputKey::Char('n') ==> post.app_screen == Screen::Main)
    &&& (k == InputKey::Char('n') && !is_delete_screen(pre.app_screen) ==> post.app_screen == pre.app_screen)
    // enter on the main screen: opens the menu the highlighted node's kind
    // calls for; with nothing highlighted, nothing at all happens
    &&& (k == InputKey::Enter && pre.app_screen == Screen::Main ==> post == (App { app_screen: post.app_screen, screen_switch_state: post.screen_switch_state, ..pre }))
    &&& (k == InputKey::Enter && pre.app_screen == Screen::Main && pre.flat@.len() == 0 ==> post == pre)
    &&& (pre.app_screen == Screen::Main && k == InputKey::Enter && pre.flat@.len() > 0 && pre.flat@[pre.cursor as int].item.project_type == ProjectItemType::StandaloneRepo ==> (post.app_screen == Screen::ScreenSwitchMenu && (post.screen_switch_state matches Some(st) && st.idx == 0 && st.title@ == " Project Menu "@ && st.options@.len() == 1 && st.options@[0].0@ == "Delete Project"@ && st.options@[0].1 == Screen::NonWorktreeRepoDelete)))
    &&& (pre.app_screen == Screen::Main && k == InputKey::Enter && pre.flat@.len() > 0 && pre.flat@[pre.cursor as int].item.project_type == ProjectItemType::WorktreeCheckout ==> (post.app_screen == Screen::ScreenSwitchMenu && (post.screen_switch_state matches Some(st) && st.idx == 0 && st.title@ == " Project Menu "@ && st.options@.len() == 1 && st.options@[0].0@ == "Delete Project"@ && st.options@[0].1 == Screen::WorktreeDelete)))
    &&& (pre.app_screen == Screen::Main && k == InputKey::Enter && pre.flat@.len() > 0 && pre.flat@[pre.cursor as int].item.project_type == ProjectItemType::WorktreeContainerRepo ==> (post.app_screen == Screen::ScreenSwitchMenu && (post.screen_switch_state matches Some(st) && st.idx == 0 && st.title@ == " Project Worktree Menu "@ && st.options@.len() == 2 && st.options@[0].0@ == "New Branch As Worktree"@ && st.options@[0].1 == Screen::WorktreeCreate && st.options@[1].0@ == "Delete Worktree"@ && st.options@[1].1 == Screen::WorktreeRepoDelete)))
    &&& (pre.app_screen == Screen::Main && k == InputKey::Enter && pre.flat@.len() > 0 && pre.flat@[pre.cursor as int].item.project_type == ProjectItemType::ProjectDirectoryGroup ==> (post.app_screen == Screen::ScreenSwitchMenu && (post.screen_switch_state matches Some(st) && st.idx == 0 && st.title@ == " Project Worktree Menu "@ && st.options@.len() == 2 && st.options@[0].0@ == "Checkout New Repo - Worktree Mode"@ && st.options@[0].1 == Screen::WorktreeRepoCreate && st.options@[1].0@ == "Checkout New Repo - Non Worktree Mode"@ && st.options@[1].1 == Screen::NonWorktreeRepoCreate)))
    // enter on the menu: commits to the highlighted option's screen and
    // drops the selector; nothing else changes
    &&& (k == InputKey::Enter && pre.app_screen == Screen::ScreenSwitchMenu ==> post == (App { app_screen: post.app_screen, screen_switch_state: None, ..pre }))
    &&& (pre.screen_switch_state matches Some(st) ==> (pre.app_screen == Screen::ScreenSwitchMenu && k == InputKey::Enter ==> (post.app_screen == st.options@[st.idx as int].1 && post.screen_switch_state is None)))
    &&& (k == InputKey::Enter && pre.app_screen == Screen::ScreenSwitchMenu && pre.screen_switch_state is None ==> post.app_screen == pre.app_screen)
    // enter on a create screen: only the screen and the summary can move,
    // and only on the bad-link path; without a capture nothing happens
    &&& (k == InputKey::Enter && is_create_screen(pre.app_screen) ==> post == (App { app_screen: post.app_screen, summary_text: post.summary_text, ..pre }))
    &&& (k == InputKey::Enter && is_create_screen(pre.app_screen) && pre.input_state is None ==> (post == pre && r is Continue))
    &&& (k == InputKey::Enter && pre.app_screen == Screen::WorktreeCreate ==> post.app_screen == pre.app_screen && post.summary_text == pre.summary_text)
    &&& (pre.input_state matches Some(st) ==> (k == InputKey::Enter && pre.app_screen == Screen::WorktreeCreate && pre.flat@.len() > 0 ==> ((r matches KeyOutcome::Run(p) && is_create_worktree_plan(p, pre.flat@[pre.cursor as int].item.path@, st.contents()[0], st.contents()[1])))))
    &&& (pre.input_state matches Some(st) ==> (k == InputKey::Enter && pre.app_screen == Screen::WorktreeRepoCreate && spec_effective_repo_name(st.contents()[0], st.contents()[1]) is Some ==> post.app_screen == pre.app_screen && post.summary_text == pre.summary_text))
    &&& (pre.input_state matches Some(st) ==> (k == InputKey::Enter && pre.app_screen == Screen::WorktreeRepoCreate && pre.flat@.len() > 0 && spec_effective_repo_name(st.contents()[0], st.contents()[1]) is Some ==> ((r matches KeyOutcome::Run(p) && is_worktree_repo_plan(p, pre.flat@[pre.cursor as int].item.path@, st.contents()[0], spec_effective_repo_name(st.contents()[0], st.contents()[1]).unwrap())))))
    &&& (pre.input_state matches Some(st) ==> (k == InputKey::Enter && pre.app_screen == Screen::WorktreeRepoCreate && spec_effective_repo_name(st.contents()[0], st.contents()[1]) is None ==> ((r is Continue && post.app_screen == Screen::Summary && post.summary_text.deep_view() == seq![crate::text::spec_link_error(st.contents()[0])]))))
    &&& (pre.input_state matches Some(st) ==> (k == InputKey::Enter && pre.app_screen == Screen::NonWorktreeRepoCreate && spec_effective_repo_name(st.contents()[0], st.contents()[1]) is Some ==> post.app_screen == pre.app_screen && post.summary_text == pre.summary_text))
    &&& (pre.input_state matches Some(st) ==> (k == InputKey::Enter && pre.app_screen == Screen::NonWorktreeRepoCreate && pre.flat@.len() > 0 && spec_effective_repo_name(st.contents()[0], st.contents()[1]) is Some ==> ((r matches KeyOutcome::Run(p) && is_plain_repo_plan(p, pre.flat@[pre.cursor as int].item.path@, st.contents()[0], spec_effective_repo_name(st.contents()[0], st.contents()[1]).unwrap())))))
    &&& (pre.input_state matches Some(st) ==> (k == InputKey::Enter && pre.app_screen == Screen::NonWorktreeRepoCreate && spec_effective_repo_name(st.contents()[0], st.contents()[1]) is None ==> ((r is Continue && post.app_screen == Screen::Summary && post.summary_text.deep_view() == seq![crate::text::spec_link_error(st.contents()[0])]))))
    // enter on a delete screen does nothing
    &&& (k == InputKey::Enter && is_delete_screen(pre.app_screen) ==> (post == pre && r is Continue))
}

/// The screen a key returns the interface to, where the screen and the key
/// alone decide it: escape retreats to the main screen from everywhere but
/// the summary screen, which any ordinary key acknowledges back to the
/// main screen.
pub open spec fn retreat_screen(s: Screen, k: InputKey) -> Option<Screen> {
    if s == Screen::Summary {
        if k == InputKey::Esc || k == InputKey::Char('q') {
            None
        } else {
            Some(Screen::Main)
        }
    } else if k == InputKey::Esc {
        Some(Screen::Main)
    } else {
        None
    }
}

/// From every screen, some finite sequence of the key bindings reaches the
/// main screen — one key always suffices: escape from any working screen,
/// any ordinary key from the summary screen. `handle_key` realises each
/// such step.
pub proof fn lemma_main_always_reachable(s: Screen)
    ensures
        exists|k: InputKey| retreat_screen(s, k) == Some(Screen::Main),
{
    if s == Screen::Summary {
        assert(retreat_screen(s, InputKey::Enter) == Some(Screen::Main));
    } else {
        assert(retreat_screen(s, InputKey::Esc) == Some(Screen::Main));
    }
}

} // verus!
