//! Deleting a directory with all it holds.
//!
//! A [`Purge`] keeps a worklist of paths. The path on top is dealt with
//! next: a file is removed; a directory is listed first, which puts what it
//! holds on top of it, and removed when it comes to the top again. So a
//! directory is removed only after everything that was listed in it, and the
//! first failure ends the purge. Where nothing fails, every path of the tree
//! is removed ([`lemma_purge_removes_the_whole_tree`]).

use vstd::prelude::*;
use vstd::string::*;

verus! {

/// One entry of a directory listing.
#[derive(Debug, Clone)]
pub struct DirEntry {
    /// The path of the entry.
    pub path: String,
    /// Whether the entry is a directory.
    pub is_dir: bool,
}

/// A directory entry as plain values.
#[verifier::ext_equal]
pub struct DirEntryView {
    pub path: Seq<char>,
    pub is_dir: bool,
}

impl View for DirEntry {
    type V = DirEntryView;

    open spec fn view(&self) -> DirEntryView {
        DirEntryView { path: self.path@, is_dir: self.is_dir }
    }
}

impl DeepView for DirEntry {
    type V = DirEntryView;

    open spec fn deep_view(&self) -> DirEntryView {
        self.view()
    }
}

/// A path on the worklist.
#[derive(Debug)]
struct Pending {
    path: String,
    is_dir: bool,
    listed: bool,
}

/// A path on the worklist, as plain values.
#[verifier::ext_equal]
pub struct PendingView {
    pub path: Seq<char>,
    pub is_dir: bool,
    /// For a directory: whether it has been listed, so that what it held is
    /// dealt with before it.
    pub listed: bool,
}

impl View for Pending {
    type V = PendingView;

    closed spec fn view(&self) -> PendingView {
        PendingView { path: self.path@, is_dir: self.is_dir, listed: self.listed }
    }
}

impl DeepView for Pending {
    type V = PendingView;

    closed spec fn deep_view(&self) -> PendingView {
        self.view()
    }
}

/// What the driver is asked to do next, each with the path [`Purge::target`].
#[derive(Clone, Copy, Debug, PartialEq, Eq, Structural)]
pub enum PurgeAction {
    /// List the directory, or tell that it does not exist.
    ListDir,
    /// Remove the file.
    RemoveFile,
    /// Remove the directory, which is empty by now.
    RemoveDir,
    /// Nothing is left to do: hand [`Purge::outcome`] to the caller.
    Finish,
}

/// The outcome of an action, as the driver reports it.
#[derive(Debug)]
pub enum PurgeEvent {
    /// The directory does not exist.
    Missing,
    /// What the directory holds.
    Listed { entries: Vec<DirEntry> },
    /// The directory could not be listed.
    ListFailed,
    /// The file or directory was to be removed; `ok` tells whether it was.
    Removed { ok: bool },
}

/// An event as plain values.
#[verifier::ext_equal]
pub enum PurgeEventView {
    Missing,
    Listed { entries: Seq<DirEntryView> },
    ListFailed,
    Removed { ok: bool },
}

impl View for PurgeEvent {
    type V = PurgeEventView;

    open spec fn view(&self) -> PurgeEventView {
        match self {
            PurgeEvent::Missing => PurgeEventView::Missing,
            PurgeEvent::Listed { entries } => PurgeEventView::Listed {
                entries: entries.deep_view(),
            },
            PurgeEvent::ListFailed => PurgeEventView::ListFailed,
            PurgeEvent::Removed { ok } => PurgeEventView::Removed { ok: *ok },
        }
    }
}

/// The deletion of one directory tree.
#[derive(Debug)]
pub struct Purge {
    worklist: Vec<Pending>,
    failed: bool,
}

/// A purge as plain values.
#[verifier::ext_equal]
pub struct PurgeView {
    /// The paths still to deal with; the last one is next.
    pub worklist: Seq<PendingView>,
    /// Whether a listing or a removal has failed.
    pub failed: bool,
}

/// The entries of a listing as they are put on the worklist: in reverse, so
/// that the first entry is on top and dealt with first.
pub open spec fn listed_items(entries: Seq<DirEntryView>) -> Seq<PendingView> {
    Seq::new(
        entries.len(),
        |i: int|
            PendingView {
                path: entries[entries.len() - 1 - i].path,
                is_dir: entries[entries.len() - 1 - i].is_dir,
                listed: false,
            },
    )
}

impl PurgeView {
    /// The purge of the directory `root`, nothing done yet.
    pub open spec fn of(root: Seq<char>) -> PurgeView {
        PurgeView {
            worklist: seq![PendingView { path: root, is_dir: true, listed: false }],
            failed: false,
        }
    }

    /// Whether nothing is left to do.
    pub open spec fn finished(self) -> bool {
        self.failed || self.worklist.len() == 0
    }

    /// The action that the machine waits for.
    pub open spec fn pending(self) -> PurgeAction {
        if self.finished() {
            PurgeAction::Finish
        } else if !self.worklist.last().is_dir {
            PurgeAction::RemoveFile
        } else if self.worklist.last().listed {
            PurgeAction::RemoveDir
        } else {
            PurgeAction::ListDir
        }
    }

    /// The path that the pending action is about.
    pub open spec fn target(self) -> Option<Seq<char>> {
        if self.finished() {
            None
        } else {
            Some(self.worklist.last().path)
        }
    }

    /// The purge after a failure.
    pub open spec fn fail(self) -> PurgeView {
        PurgeView { failed: true, ..self }
    }

    /// The purge once the path on top is dealt with.
    pub open spec fn done_with_top(self) -> PurgeView {
        PurgeView { worklist: self.worklist.drop_last(), ..self }
    }

    /// The state after `event`. An event that does not answer the pending
    /// action changes nothing.
    pub open spec fn after(self, event: PurgeEventView) -> PurgeView {
        match self.pending() {
            PurgeAction::Finish => self,
            PurgeAction::ListDir => match event {
                PurgeEventView::Listed { entries } => PurgeView {
                    worklist: self.worklist.drop_last().push(
                        PendingView { listed: true, ..self.worklist.last() },
                    ) + listed_items(entries),
                    ..self
                },
                PurgeEventView::Missing => self.done_with_top(),
                PurgeEventView::ListFailed => self.fail(),
                _ => self,
            },
            PurgeAction::RemoveFile => match event {
                PurgeEventView::Removed { ok } => if ok {
                    self.done_with_top()
                } else {
                    self.fail()
                },
                _ => self,
            },
            PurgeAction::RemoveDir => match event {
                PurgeEventView::Removed { ok } => if ok {
                    self.done_with_top()
                } else {
                    self.fail()
                },
                _ => self,
            },
        }
    }

    /// The state after each of `events` in turn.
    pub open spec fn after_all(self, events: Seq<PurgeEventView>) -> PurgeView
        decreases events.len(),
    {
        if events.len() == 0 {
            self
        } else {
            self.after(events.first()).after_all(events.drop_first())
        }
    }

    /// What the caller is told: nothing while the work goes on, then whether
    /// everything was removed.
    pub open spec fn outcome(self) -> Option<bool> {
        if self.failed {
            Some(false)
        } else if self.worklist.len() == 0 {
            Some(true)
        } else {
            None
        }
    }
}

impl View for Purge {
    type V = PurgeView;

    closed spec fn view(&self) -> PurgeView {
        PurgeView { worklist: self.worklist.deep_view(), failed: self.failed }
    }
}

impl Purge {
    /// Plans the deletion of the directory `root` and all it holds.
    pub fn new(root: String) -> (purge: Purge)
        ensures
            purge@ == PurgeView::of(root@),
    {
        let mut worklist: Vec<Pending> = Vec::new();
        worklist.push(Pending { path: root, is_dir: true, listed: false });
        assert(worklist.deep_view() =~= PurgeView::of(root@).worklist);
        Purge { worklist, failed: false }
    }

    /// The action that the machine waits for.
    pub fn pending(&self) -> (action: PurgeAction)
        ensures
            action == self@.pending(),
    {
        let len = self.worklist.len();
        if self.failed || len == 0 {
            PurgeAction::Finish
        } else if !self.worklist[len - 1].is_dir {
            PurgeAction::RemoveFile
        } else if self.worklist[len - 1].listed {
            PurgeAction::RemoveDir
        } else {
            PurgeAction::ListDir
        }
    }

    /// The path that the pending action is about. It is known whenever work
    /// is left.
    pub fn target(&self) -> (path: Option<&String>)
        ensures
            match path {
                Some(path) => self@.target() == Some(path@),
                None => self@.target() is None,
            },
            self@.pending() != PurgeAction::Finish ==> path is Some,
    {
        let len = self.worklist.len();
        if self.failed || len == 0 {
            None
        } else {
            Some(&self.worklist[len - 1].path)
        }
    }

    /// Takes the path on top off the worklist.
    fn finish_top(&mut self)
        requires
            old(self).worklist.len() > 0,
        ensures
            final(self)@ == old(self)@.done_with_top(),
    {
        let _ = self.worklist.pop();
        assert(self.worklist.deep_view() =~= old(self).worklist.deep_view().drop_last());
    }

    /// Marks the directory on top as listed and puts its entries on top of it.
    fn expand_top(&mut self, entries: Vec<DirEntry>)
        requires
            old(self).worklist.len() > 0,
        ensures
            final(self)@ == (PurgeView {
                worklist: old(self)@.worklist.drop_last().push(
                    PendingView { listed: true, ..old(self)@.worklist.last() },
                ) + listed_items(entries.deep_view()),
                ..old(self)@
            }),
    {
        let ghost before = self.worklist.deep_view();
        let ghost listing = entries.deep_view();
        match self.worklist.pop() {
            Some(top) => {
                self.worklist.push(Pending { path: top.path, is_dir: top.is_dir, listed: true });
            },
            None => {},
        }
        let ghost base = before.drop_last().push(PendingView { listed: true, ..before.last() });
        assert(self.worklist.deep_view() =~= base);
        let mut entries = entries;
        while entries.len() > 0
            invariant
                entries.len() <= listing.len(),
                entries.deep_view() == listing.take(entries.len() as int),
                self.failed == old(self).failed,
                self.worklist.deep_view() == base + listed_items(listing).take(
                    listing.len() - entries.len(),
                ),
            decreases entries.len(),
        {
            let ghost left = entries.deep_view();
            let ghost sofar = self.worklist.deep_view();
            match entries.pop() {
                Some(entry) => {
                    assert(entry@ == left.last());
                    assert(left.last() == listing[left.len() - 1]);
                    self.worklist.push(
                        Pending { path: entry.path, is_dir: entry.is_dir, listed: false },
                    );
                    assert(entries.deep_view() =~= listing.take(entries.len() as int));
                    assert(self.worklist.deep_view() =~= sofar.push(
                        listed_items(listing)[listing.len() - left.len()],
                    ));
                    assert(self.worklist.deep_view() =~= base + listed_items(listing).take(
                        listing.len() - entries.len(),
                    ));
                },
                None => {},
            }
        }
        assert(listed_items(listing).take(listing.len() as int) =~= listed_items(listing));
    }

    /// Takes in the outcome of the pending action and names the next one.
    pub fn step(&mut self, event: PurgeEvent) -> (action: PurgeAction)
        ensures
            final(self)@ == old(self)@.after(event@),
            action == final(self)@.pending(),
    {
        match self.pending() {
            PurgeAction::Finish => {},
            PurgeAction::ListDir => match event {
                PurgeEvent::Listed { entries } => {
                    self.expand_top(entries);
                },
                PurgeEvent::Missing => {
                    self.finish_top();
                },
                PurgeEvent::ListFailed => {
                    self.failed = true;
                },
                _ => {},
            },
            PurgeAction::RemoveFile => match event {
                PurgeEvent::Removed { ok } => {
                    if ok {
                        self.finish_top();
                    } else {
                        self.failed = true;
                    }
                },
                _ => {},
            },
            PurgeAction::RemoveDir => match event {
                PurgeEvent::Removed { ok } => {
                    if ok {
                        self.finish_top();
                    } else {
                        self.failed = true;
                    }
                },
                _ => {},
            },
        }
        self.pending()
    }

    /// Whether nothing is left to do.
    pub fn is_finished(&self) -> (finished: bool)
        ensures
            finished == self@.finished(),
    {
        self.failed || self.worklist.len() == 0
    }

    /// How many paths are still on the worklist.
    pub fn remaining(&self) -> (count: usize)
        ensures
            count == self@.worklist.len(),
    {
        self.worklist.len()
    }

    /// What the caller is told: `None` while work is left, then whether
    /// everything was removed.
    pub fn outcome(&self) -> (outcome: Option<bool>)
        ensures
            outcome == self@.outcome(),
    {
        if self.failed {
            Some(false)
        } else if self.worklist.len() == 0 {
            Some(true)
        } else {
            None
        }
    }
}

/// A directory that does not exist is purged already.
pub proof fn lemma_missing_directory_is_purged(root: Seq<char>)
    ensures
        PurgeView::of(root).pending() == PurgeAction::ListDir,
        PurgeView::of(root).target() == Some(root),
        PurgeView::of(root).after(PurgeEventView::Missing).outcome() == Some(true),
{
}

/// After a listing, the first entry is dealt with first: a directory among
/// the entries is listed in its turn, a file is removed. A directory that
/// holds nothing is removed next.
pub proof fn lemma_listing_is_dealt_with_in_order(purge: PurgeView, entries: Seq<DirEntryView>)
    requires
        purge.pending() == PurgeAction::ListDir,
    ensures
        ({
            let listed = purge.after(PurgeEventView::Listed { entries });
            &&& listed.worklist.len() == purge.worklist.len() + entries.len()
            &&& entries.len() == 0 ==> listed.pending() == PurgeAction::RemoveDir
                && listed.target() == purge.target()
            &&& entries.len() > 0 ==> listed.target() == Some(entries[0].path)
                && listed.pending() == if entries[0].is_dir {
                PurgeAction::ListDir
            } else {
                PurgeAction::RemoveFile
            }
        }),
{
    let listed = purge.after(PurgeEventView::Listed { entries });
    if entries.len() > 0 {
        assert(listed.worklist.last() == listed_items(entries)[entries.len() - 1]);
    } else {
        assert(listed.worklist =~= purge.worklist.drop_last().push(
            PendingView { listed: true, ..purge.worklist.last() },
        ));
    }
}

/// The first failure ends the purge: the caller is told that not everything
/// was removed, and no later event changes that.
pub proof fn lemma_first_failure_ends_the_purge(purge: PurgeView, later: PurgeEventView)
    requires
        !purge.finished(),
    ensures
        purge.pending() == PurgeAction::ListDir ==> purge.after(
            PurgeEventView::ListFailed,
        ).outcome() == Some(false),
        purge.pending() != PurgeAction::ListDir ==> purge.after(
            PurgeEventView::Removed { ok: false },
        ).outcome() == Some(false),
        purge.fail().after(later) == purge.fail(),
        purge.fail().pending() == PurgeAction::Finish,
{
}

/// The purge succeeds exactly when the worklist has run empty without a
/// failure.
pub proof fn lemma_purge_succeeds_when_nothing_is_left(purge: PurgeView)
    ensures
        purge.outcome() == Some(true) <==> !purge.failed && purge.worklist.len() == 0,
        purge.outcome() is Some <==> purge.finished(),
        purge.finished() <==> purge.pending() == PurgeAction::Finish,
{
}

/// A file or a directory with all it holds, as the filesystem has it.
pub struct Tree {
    pub path: Seq<char>,
    pub is_dir: bool,
    /// What a directory holds, in the order of its listing. A file holds
    /// nothing, whatever stands here.
    pub children: Seq<Tree>,
}

/// The listing of a directory that holds `trees`.
pub open spec fn listing_of(trees: Seq<Tree>) -> Seq<DirEntryView> {
    Seq::new(trees.len(), |i: int| DirEntryView { path: trees[i].path, is_dir: trees[i].is_dir })
}

impl Tree {
    /// The tree as it stands on the worklist before it is dealt with.
    pub open spec fn item(self) -> PendingView {
        PendingView { path: self.path, is_dir: self.is_dir, listed: false }
    }

    /// What the filesystem answers while the tree is purged and nothing
    /// fails: a file is removed; a directory is listed, what it holds is
    /// purged entry by entry, and the directory is removed.
    pub open spec fn purge_events(self) -> Seq<PurgeEventView>
        decreases self,
    {
        if self.is_dir {
            seq![PurgeEventView::Listed { entries: listing_of(self.children) }] + forest_events(
                self.children,
            ) + seq![PurgeEventView::Removed { ok: true }]
        } else {
            seq![PurgeEventView::Removed { ok: true }]
        }
    }

    /// Every path of the tree, each after the paths below it.
    pub open spec fn paths(self) -> Seq<Seq<char>>
        decreases self,
    {
        if self.is_dir {
            forest_paths(self.children) + seq![self.path]
        } else {
            seq![self.path]
        }
    }
}

/// What the filesystem answers while `trees` are purged one after the other.
pub open spec fn forest_events(trees: Seq<Tree>) -> Seq<PurgeEventView>
    decreases trees,
{
    if trees.len() == 0 {
        Seq::empty()
    } else {
        trees.first().purge_events() + forest_events(trees.drop_first())
    }
}

/// Every path of `trees`, tree by tree.
pub open spec fn forest_paths(trees: Seq<Tree>) -> Seq<Seq<char>>
    decreases trees,
{
    if trees.len() == 0 {
        Seq::empty()
    } else {
        trees.first().paths() + forest_paths(trees.drop_first())
    }
}

impl PurgeView {
    /// Whether `event` tells that the path on top was removed.
    pub open spec fn removes(self, event: PurgeEventView) -> bool {
        (self.pending() == PurgeAction::RemoveFile || self.pending() == PurgeAction::RemoveDir)
            && event == (PurgeEventView::Removed { ok: true })
    }

    /// The paths that were removed in the course of `events`, in that order.
    pub open spec fn removed_by(self, events: Seq<PurgeEventView>) -> Seq<Seq<char>>
        decreases events.len(),
    {
        if events.len() == 0 {
            Seq::empty()
        } else {
            let later = self.after(events.first()).removed_by(events.drop_first());
            if self.removes(events.first()) {
                seq![self.worklist.last().path] + later
            } else {
                later
            }
        }
    }
}

/// Events in two parts are taken part by part.
pub proof fn lemma_events_in_two_parts(
    purge: PurgeView,
    first: Seq<PurgeEventView>,
    second: Seq<PurgeEventView>,
)
    ensures
        purge.after_all(first + second) == purge.after_all(first).after_all(second),
        purge.removed_by(first + second) == purge.removed_by(first) + purge.after_all(
            first,
        ).removed_by(second),
    decreases first.len(),
{
    if first.len() == 0 {
        assert(first + second =~= second);
        assert(purge.removed_by(first) + purge.removed_by(second) =~= purge.removed_by(second));
    } else {
        let all = first + second;
        assert(all.first() == first.first());
        assert(all.drop_first() =~= first.drop_first() + second);
        lemma_events_in_two_parts(purge.after(first.first()), first.drop_first(), second);
        let next = purge.after(first.first());
        assert(purge.removed_by(all) =~= purge.removed_by(first) + purge.after_all(
            first,
        ).removed_by(second));
    }
}

/// A single event is one step.
pub proof fn lemma_single_event(purge: PurgeView, event: PurgeEventView)
    ensures
        purge.after_all(seq![event]) == purge.after(event),
        purge.removed_by(seq![event]) == if purge.removes(event) {
            seq![purge.worklist.last().path]
        } else {
            Seq::<Seq<char>>::empty()
        },
{
    let events = seq![event];
    assert(events.first() == event);
    assert(events.drop_first() =~= Seq::<PurgeEventView>::empty());
    assert(purge.after(event).after_all(events.drop_first()) == purge.after(event));
    assert(purge.after(event).removed_by(events.drop_first()) =~= Seq::<Seq<char>>::empty());
    if purge.removes(event) {
        assert(purge.removed_by(events) =~= seq![purge.worklist.last().path]);
    } else {
        assert(purge.removed_by(events) =~= Seq::<Seq<char>>::empty());
    }
}

/// A tree on top of the worklist is purged whole: once the filesystem has
/// answered for every path of it, the tree is off the worklist, what lay
/// below it is untouched, and the removals were those of every path of the
/// tree, each after the paths below it.
pub proof fn lemma_tree_on_top_is_purged(purge: PurgeView, tree: Tree)
    requires
        !purge.failed,
        purge.worklist.len() > 0,
        purge.worklist.last() == tree.item(),
    ensures
        purge.after_all(tree.purge_events()) == purge.done_with_top(),
        purge.removed_by(tree.purge_events()) == tree.paths(),
    decreases tree,
{
    let removed = PurgeEventView::Removed { ok: true };
    if tree.is_dir {
        let listed = PurgeEventView::Listed { entries: listing_of(tree.children) };
        let inner = forest_events(tree.children);
        let below = purge.worklist.drop_last();
        let marked = PendingView { listed: true, ..tree.item() };
        let opened = purge.after(listed);
        assert(opened.worklist == below.push(marked) + listed_items(listing_of(tree.children)));
        assert(opened.worklist.take(opened.worklist.len() - tree.children.len()) =~= below.push(
            marked,
        ));
        lemma_forest_on_top_is_purged(opened, tree.children);
        let emptied = opened.after_all(inner);
        assert(emptied.worklist == below.push(marked));
        assert(emptied.pending() == PurgeAction::RemoveDir);
        assert(emptied.after(removed).worklist =~= below);
        lemma_single_event(purge, listed);
        lemma_single_event(emptied, removed);
        lemma_events_in_two_parts(purge, seq![listed], inner);
        lemma_events_in_two_parts(purge, seq![listed] + inner, seq![removed]);
        assert(purge.removed_by(tree.purge_events()) =~= tree.paths());
    } else {
        lemma_single_event(purge, removed);
    }
}

/// Trees on top of the worklist, as a listing put them there, are purged one
/// after the other, the first entry first.
pub proof fn lemma_forest_on_top_is_purged(purge: PurgeView, trees: Seq<Tree>)
    requires
        !purge.failed,
        purge.worklist.len() >= trees.len(),
        purge.worklist == purge.worklist.take(purge.worklist.len() - trees.len())
            + listed_items(listing_of(trees)),
    ensures
        purge.after_all(forest_events(trees)) == (PurgeView {
            worklist: purge.worklist.take(purge.worklist.len() - trees.len()),
            ..purge
        }),
        purge.removed_by(forest_events(trees)) == forest_paths(trees),
    decreases trees,
{
    let below = purge.worklist.take(purge.worklist.len() - trees.len());
    if trees.len() == 0 {
        assert(below =~= purge.worklist);
        assert(purge.after_all(forest_events(trees)) == purge);
        assert(purge.removed_by(forest_events(trees)) =~= forest_paths(trees));
    } else {
        let items = listed_items(listing_of(trees));
        let first = trees.first();
        let rest = trees.drop_first();
        assert(purge.worklist.last() == items[trees.len() - 1]);
        assert(purge.worklist.last() == first.item());
        lemma_tree_on_top_is_purged(purge, first);
        let next = purge.done_with_top();
        assert(items.drop_last() =~= listed_items(listing_of(rest)));
        assert(next.worklist =~= below + listed_items(listing_of(rest)));
        assert(next.worklist.take(next.worklist.len() - rest.len()) =~= below);
        lemma_forest_on_top_is_purged(next, rest);
        lemma_events_in_two_parts(purge, first.purge_events(), forest_events(rest));
    }
}

/// Purging a directory leaves nothing at or below it: whatever files and
/// nested directories it holds, if the filesystem answers each listing and
/// carries out each removal, the purge ends with success, and it has removed
/// every path of the tree, the directory itself last.
pub proof fn lemma_purge_removes_the_whole_tree(tree: Tree)
    requires
        tree.is_dir,
    ensures
        PurgeView::of(tree.path).after_all(tree.purge_events()).outcome() == Some(true),
        PurgeView::of(tree.path).removed_by(tree.purge_events()) == tree.paths(),
        tree.paths().last() == tree.path,
{
    let purge = PurgeView::of(tree.path);
    lemma_tree_on_top_is_purged(purge, tree);
    assert(purge.done_with_top().worklist =~= Seq::<PendingView>::empty());
}

/// The paths of a tree are those of everything it holds: the paths of each
/// entry of a directory are among the paths of the directory.
pub proof fn lemma_paths_hold_every_entry(tree: Tree, i: int, path: Seq<char>)
    requires
        tree.is_dir,
        0 <= i < tree.children.len(),
        tree.children[i].paths().contains(path),
    ensures
        tree.paths().contains(path),
        tree.paths().contains(tree.path),
{
    lemma_forest_paths_hold_every_tree(tree.children, i, path);
    let inner = forest_paths(tree.children);
    let k = choose|k: int| 0 <= k < inner.len() && inner[k] == path;
    assert(tree.paths()[k] == path);
    assert(tree.paths()[inner.len() as int] == tree.path);
}

/// The paths of each of `trees` are among the paths of all of them.
pub proof fn lemma_forest_paths_hold_every_tree(trees: Seq<Tree>, i: int, path: Seq<char>)
    requires
        0 <= i < trees.len(),
        trees[i].paths().contains(path),
    ensures
        forest_paths(trees).contains(path),
    decreases trees.len(),
{
    let head = trees.first().paths();
    let tail = forest_paths(trees.drop_first());
    if i == 0 {
        let k = choose|k: int| 0 <= k < head.len() && head[k] == path;
        assert(forest_paths(trees)[k] == path);
    } else {
        assert(trees.drop_first()[i - 1] == trees[i]);
        lemma_forest_paths_hold_every_tree(trees.drop_first(), i - 1, path);
        let k = choose|k: int| 0 <= k < tail.len() && tail[k] == path;
        assert(forest_paths(trees)[head.len() + k] == path);
    }
}

} // verus!
