use vstd::prelude::*;
use vstd::string::*;
use crate::frame::{GameKey, KeyMods};

verus! {

/// Who a UI message is for: the current menu, or the dialog with the given number.
#[derive(Clone, Copy, Debug, PartialEq, Eq, Structural)]
pub enum MessageOwner {
    Menu,
    Dialog(usize),
}

impl MessageOwner {
    /// Whether the message is for the menu.
    pub fn is_menu(&self) -> (b: bool)
        ensures
            b == (*self is Menu),
    {
        match self {
            MessageOwner::Menu => true,
            MessageOwner::Dialog(_) => false,
        }
    }
}

/// A message to a widget tree; `M` is what the widgets read.
#[derive(Debug)]
pub struct UiMessage<M> {
    pub owner: MessageOwner,
    pub value: M,
}

/// An open dialog: its number, its widget's name and its widget tree.
#[derive(Debug)]
pub struct Dialog<T> {
    pub num: usize,
    pub name: String,
    pub tree: T,
}

/// One of the widget trees: the menu's, or the dialog at a position of the dialog stack.
#[derive(Clone, Copy, Debug, PartialEq, Eq, Structural)]
pub enum TreeRef {
    Root,
    Dialog(usize),
}

/// The actions widgets ask of the UI; what they carry (styles, positions, sizes) stays
/// with the caller, who applies it to the tree.
#[derive(Clone, Copy, Debug, PartialEq, Eq, Structural)]
pub enum UiActionKind {
    Refresh,
    MarkDirty,
    ContextChanged,
    UpdateStyle,
    UpdateStyleWith,
    UpdateDisplay,
    Dialog(DialogActionKind),
}

/// Actions on a dialog window.
#[derive(Clone, Copy, Debug, PartialEq, Eq, Structural)]
pub enum DialogActionKind {
    Close,
    MoveDialog,
    ResizeDialog,
    BringToFront,
}

/// What came of a UI action.
#[derive(Debug)]
pub enum UiActionStep<T> {
    /// no tree holds the node the action is for
    NoTree,
    /// the caller applies the action to this tree
    ApplyToTree(TreeRef),
    /// the dialog was closed and taken off the stack
    Closed(Dialog<T>),
    /// the dialog now lies on top of the stack
    MovedToFront,
    /// a dialog action aimed at the menu, which is no dialog
    NotADialog,
}

/// One frame's UI work: where each waiting message goes, and in which order the trees
/// get input, events and their update.
#[derive(Debug)]
pub struct UiUpdate<M, E> {
    pub messages: Vec<(TreeRef, M)>,
    /// the events every tree gets, in order
    pub events: Vec<UiEvent<E>>,
    pub input_order: Vec<TreeRef>,
    pub event_order: Vec<TreeRef>,
    pub update_order: Vec<TreeRef>,
}

/// A key pressed or released, with the modifier keys held, as the menus get it.
#[derive(Clone, Copy, Debug, PartialEq, Eq, Structural)]
pub struct MenuKeyEvent {
    pub key: GameKey,
    pub control: bool,
    pub alt: bool,
    pub shift: bool,
}

/// An event handed to every tree: one of the game's own events, or a key pressed or
/// released.
#[derive(Clone, Copy, Debug, PartialEq, Eq)]
pub enum UiEvent<E> {
    Game(E),
    KeyPress(MenuKeyEvent),
    KeyRelease(MenuKeyEvent),
}

/// The event for `key` with the modifiers held: a press or a release.
pub open spec fn key_event<E>(key: GameKey, mods: KeyMods, press: bool) -> UiEvent<E> {
    let ev = MenuKeyEvent { key, control: mods.ctrl, alt: mods.alt, shift: mods.shift };
    if press { UiEvent::KeyPress(ev) } else { UiEvent::KeyRelease(ev) }
}

/// The events of the inputs that are keys (`None` stands for an input that is not a key),
/// in order.
pub open spec fn key_events<E>(inputs: Seq<Option<GameKey>>, mods: KeyMods, press: bool) -> Seq<UiEvent<E>>
    decreases inputs.len(),
{
    if inputs.len() == 0 {
        Seq::empty()
    } else {
        key_events(inputs.drop_last(), mods, press) + match inputs.last() {
            Some(k) => seq![key_event(k, mods, press)],
            None => Seq::empty(),
        }
    }
}

/// The events of a frame: the game's own events, then a press for each key pressed, then
/// a release for each key released.
pub open spec fn frame_events<E>(game: Seq<E>, down: Seq<Option<GameKey>>, up: Seq<Option<GameKey>>, mods: KeyMods) -> Seq<UiEvent<E>> {
    game.map_values(|e: E| UiEvent::Game(e)) + key_events(down, mods, true) + key_events(up, mods, false)
}

/// Appends the events of the inputs that are keys.
fn push_key_events<E>(events: &mut Vec<UiEvent<E>>, inputs: &Vec<Option<GameKey>>, mods: KeyMods, press: bool)
    ensures
        final(events)@ == old(events)@ + key_events(inputs@, mods, press),
{
    let ghost start = events@;
    assert(inputs@.take(0) =~= Seq::<Option<GameKey>>::empty());
    for i in 0..inputs.len()
        invariant
            events@ == start + key_events(inputs@.take(i as int), mods, press),
    {
        assert(inputs@.take(i + 1).drop_last() =~= inputs@.take(i as int));
        assert(inputs@.take(i + 1).last() == inputs@[i as int]);
        if let Some(k) = inputs[i] {
            let ev = MenuKeyEvent { key: k, control: mods.ctrl, alt: mods.alt, shift: mods.shift };
            if press {
                events.push(UiEvent::KeyPress(ev));
            } else {
                events.push(UiEvent::KeyRelease(ev));
            }
        }
        assert(events@ =~= start + key_events(inputs@.take(i + 1), mods, press));
    }
    assert(inputs@.take(inputs@.len() as int) =~= inputs@);
}

/// The events of a frame: see [`frame_events`].
pub fn build_frame_events<E>(
    game: Vec<E>,
    keys_down: &Vec<Option<GameKey>>,
    keys_up: &Vec<Option<GameKey>>,
    mods: KeyMods,
) -> (events: Vec<UiEvent<E>>)
    ensures
        events@ == frame_events(game@, keys_down@, keys_up@, mods),
{
    let ghost g = game@;
    let mut events: Vec<UiEvent<E>> = Vec::new();
    let mut k: usize = 0;
    let n: usize = game.len();
    for e in it: game
        invariant
            it.seq() == g,
            k == it.index(),
            k <= g.len(),
            g.len() == n,
            events@ == g.take(k as int).map_values(|e: E| UiEvent::Game(e)),
    {
        assert(g.take(k + 1) =~= g.take(k as int).push(e));
        events.push(UiEvent::Game(e));
        assert(events@ =~= g.take(k + 1).map_values(|e: E| UiEvent::Game(e)));
        k += 1;
    }
    assert(g.take(g.len() as int) =~= g);
    push_key_events(&mut events, keys_down, mods, true);
    push_key_events(&mut events, keys_up, mods, false);
    events
}

/// The menu tree, the stack of dialog trees above it (last on top), and the messages
/// waiting for them.
#[derive(Debug)]
pub struct UiManager<T, M> {
    pub messages: Vec<UiMessage<M>>,
    pub current_menu: String,
    /// the tree of the menu being shown
    pub root_tree: T,
    /// the number the next dialog gets
    pub dialog_counter: usize,
    pub dialogs: Vec<Dialog<T>>,
}

/// The numbers of a stack of dialogs.
pub open spec fn dialog_nums<T>(dialogs: Seq<Dialog<T>>) -> Seq<usize> {
    dialogs.map_values(|d: Dialog<T>| d.num)
}

/// The tree a message owner stands for, if it is open: the menu, or the lowest dialog
/// with the owner's number.
pub open spec fn tree_of(nums: Seq<usize>, owner: MessageOwner) -> Option<TreeRef> {
    match owner {
        MessageOwner::Menu => Some(TreeRef::Root),
        MessageOwner::Dialog(n) => match nums.index_of_first(n) {
            Some(i) => Some(TreeRef::Dialog(i as usize)),
            None => None,
        },
    }
}

/// Where each message goes, in order; messages for trees that are gone are dropped.
pub open spec fn deliveries<M>(msgs: Seq<UiMessage<M>>, nums: Seq<usize>) -> Seq<(TreeRef, M)>
    decreases msgs.len(),
{
    if msgs.len() == 0 {
        Seq::empty()
    } else {
        deliveries(msgs.drop_last(), nums) + match tree_of(nums, msgs.last().owner) {
            Some(t) => seq![(t, msgs.last().value)],
            None => Seq::empty(),
        }
    }
}

/// The test that keeps messages for dialogs and drops those for the menu.
pub open spec fn not_for_menu<M>() -> spec_fn(UiMessage<M>) -> bool {
    |m: UiMessage<M>| !(m.owner is Menu)
}

/// Whether a dialog stack has a dialog whose widget has the given name.
pub open spec fn has_name<T>(dialogs: Seq<Dialog<T>>, name: Seq<char>) -> bool {
    exists|i: int| 0 <= i < dialogs.len() && #[trigger] dialogs[i].name@ == name
}

/// Every dialog of a stack has its own number, below `counter`.
pub open spec fn numbered_below<T>(dialogs: Seq<Dialog<T>>, counter: usize) -> bool {
    let nums = dialog_nums(dialogs);
    &&& forall|i: int, j: int| 0 <= i < j < nums.len() ==> nums[i] != nums[j]
    &&& forall|i: int| 0 <= i < nums.len() ==> nums[i] < counter
}

impl<T, M> UiManager<T, M> {
    /// Every open dialog has its own number, below the counter.
    pub open spec fn wf(&self) -> bool {
        numbered_below(self.dialogs@, self.dialog_counter)
    }

    /// No menu yet (named `"None"`), no dialogs, no messages.
    pub fn new(root_tree: T) -> (u: UiManager<T, M>)
        ensures
            u.wf(),
            u.messages@ == Seq::<UiMessage<M>>::empty(),
            u.current_menu@ == "None"@,
            u.root_tree == root_tree,
            u.dialog_counter == 0,
            u.dialogs@ == Seq::<Dialog<T>>::empty(),
    {
        UiManager {
            messages: Vec::new(),
            current_menu: String::from_str("None"),
            root_tree,
            dialog_counter: 0,
            dialogs: Vec::new(),
        }
    }

    /// The name of the menu being shown.
    pub fn get_menu(&self) -> (name: &String)
        ensures
            name@ == self.current_menu@,
    {
        &self.current_menu
    }

    /// Queues a message for a tree.
    pub fn add_message(&mut self, message: UiMessage<M>)
        ensures
            final(self).messages@ == old(self).messages@.push(message),
            final(self).current_menu == old(self).current_menu,
            final(self).root_tree == old(self).root_tree,
            final(self).dialog_counter == old(self).dialog_counter,
            final(self).dialogs == old(self).dialogs,
    {
        self.messages.push(message);
    }

    /// Shows a new menu: its tree becomes the root, and messages for the old menu are dropped.
    pub fn set_root(&mut self, root_tree: T, name: String)
        ensures
            final(self).messages@ == old(self).messages@.filter(not_for_menu()),
            final(self).current_menu == name,
            final(self).root_tree == root_tree,
            final(self).dialog_counter == old(self).dialog_counter,
            final(self).dialogs == old(self).dialogs,
    {
        self.current_menu = name;
        self.root_tree = root_tree;
        let mut msgs: Vec<UiMessage<M>> = Vec::new();
        std::mem::swap(&mut msgs, &mut self.messages);
        let ghost all = msgs@;
        assert(all.take(0).filter(not_for_menu()) =~= Seq::<UiMessage<M>>::empty()) by {
            reveal(Seq::filter);
        }
        for m in it: msgs
            invariant
                it.seq() == all,
                self.messages@ == all.take(it.index() as int).filter(not_for_menu()),
                self.current_menu == name,
                self.root_tree == root_tree,
                self.dialog_counter == old(self).dialog_counter,
                self.dialogs == old(self).dialogs,
        {
            let ghost i = it.index();
            proof { reveal(Seq::filter); }
            assert(all.take(i + 1).drop_last() =~= all.take(i as int));
            if !m.owner.is_menu() {
                self.messages.push(m);
            }
        }
        assert(all.take(all.len() as int) =~= all);
    }

    /// Whether a dialog whose widget has the given name is open.
    pub fn has_dialog_named(&self, name: &String) -> (b: bool)
        ensures
            b == has_name(self.dialogs@, name@),
    {
        for i in 0..self.dialogs.len()
            invariant
                forall|j: int| 0 <= j < i ==> #[trigger] self.dialogs@[j].name@ != name@,
        {
            if self.dialogs[i].name.eq(name) {
                return true;
            }
        }
        false
    }

    /// Opens a dialog on top of the others, under the next dialog number, which it returns.
    /// Unless several are allowed, a dialog whose widget name is already open is not added.
    pub fn add_dialog(&mut self, name: String, allow_multiple: bool, tree: T) -> (num: Option<usize>)
        requires
            old(self).wf(),
            old(self).dialog_counter < usize::MAX,
        ensures
            final(self).wf(),
            if !allow_multiple && has_name(old(self).dialogs@, name@) {
                &&& num is None
                &&& *final(self) == *old(self)
            } else {
                &&& num == Some(old(self).dialog_counter)
                &&& final(self).dialog_counter == old(self).dialog_counter + 1
                &&& final(self).dialogs@ == old(self).dialogs@.push(
                    Dialog { num: old(self).dialog_counter, name, tree },
                )
                &&& final(self).messages == old(self).messages
                &&& final(self).current_menu == old(self).current_menu
                &&& final(self).root_tree == old(self).root_tree
            },
    {
        if !allow_multiple && self.has_dialog_named(&name) {
            return None;
        }
        let num = self.dialog_counter;
        self.dialog_counter = num + 1;
        self.dialogs.push(Dialog { num, name, tree });
        assert(dialog_nums(self.dialogs@) =~= dialog_nums(old(self).dialogs@).push(num));
        Some(num)
    }

    /// The number of the dialog on top, to which the caller sends a forced close; `None`
    /// when no dialog is open.
    pub fn close_latest(&self) -> (num: Option<usize>)
        ensures
            self.dialogs@.len() == 0 ==> num is None,
            self.dialogs@.len() > 0 ==> num == Some(self.dialogs@.last().num),
    {
        let n = self.dialogs.len();
        if n == 0 {
            None
        } else {
            Some(self.dialogs[n - 1].num)
        }
    }

    /// Closes every dialog and restarts their numbering; the closed dialogs are returned,
    /// bottom first, for the caller to send each a forced close.
    pub fn force_close_all(&mut self) -> (closed: Vec<Dialog<T>>)
        ensures
            closed@ == old(self).dialogs@,
            final(self).dialogs@ == Seq::<Dialog<T>>::empty(),
            final(self).dialog_counter == 0,
            final(self).wf(),
            final(self).messages == old(self).messages,
            final(self).current_menu == old(self).current_menu,
            final(self).root_tree == old(self).root_tree,
    {
        let mut closed: Vec<Dialog<T>> = Vec::new();
        std::mem::swap(&mut closed, &mut self.dialogs);
        self.dialog_counter = 0;
        closed
    }

    /// The first tree holding a node, looking at the menu's tree first and then at the
    /// dialogs from the bottom up; `has_node` tells whether a tree holds the node.
    pub fn tree_with_node<F: Fn(&T) -> bool>(&self, has_node: F) -> (r: Option<TreeRef>)
        requires
            call_requires(has_node, (&self.root_tree,)),
            forall|i: int| 0 <= i < self.dialogs@.len() ==> call_requires(has_node, (&#[trigger] self.dialogs@[i].tree,)),
        ensures
            match r {
                Some(TreeRef::Root) => call_ensures(has_node, (&self.root_tree,), true),
                Some(TreeRef::Dialog(i)) => {
                    &&& i < self.dialogs@.len()
                    &&& call_ensures(has_node, (&self.root_tree,), false)
                    &&& forall|j: int| 0 <= j < i ==> call_ensures(has_node, (&#[trigger] self.dialogs@[j].tree,), false)
                    &&& call_ensures(has_node, (&self.dialogs@[i as int].tree,), true)
                },
                None => {
                    &&& call_ensures(has_node, (&self.root_tree,), false)
                    &&& forall|j: int| 0 <= j < self.dialogs@.len() ==> call_ensures(has_node, (&#[trigger] self.dialogs@[j].tree,), false)
                },
            },
    {
        if has_node(&self.root_tree) {
            return Some(TreeRef::Root);
        }
        let n = self.dialogs.len();
        let mut i: usize = 0;
        while i < n
            invariant
                n == self.dialogs@.len(),
                i <= n,
                call_ensures(has_node, (&self.root_tree,), false),
                forall|j: int| 0 <= j < self.dialogs@.len() ==> call_requires(has_node, (&#[trigger] self.dialogs@[j].tree,)),
                forall|j: int| 0 <= j < i ==> call_ensures(has_node, (&#[trigger] self.dialogs@[j].tree,), false),
            decreases n - i,
        {
            if has_node(&self.dialogs[i].tree) {
                return Some(TreeRef::Dialog(i));
            }
            i += 1;
        }
        None
    }

    /// The tree that a message owner stands for, if it is still open.
    pub fn tree_for(&self, owner: MessageOwner) -> (t: Option<TreeRef>)
        ensures
            t == tree_of(dialog_nums(self.dialogs@), owner),
    {
        let ghost nums = dialog_nums(self.dialogs@);
        match owner {
            MessageOwner::Menu => Some(TreeRef::Root),
            MessageOwner::Dialog(n) => {
                for i in 0..self.dialogs.len()
                    invariant
                        owner == MessageOwner::Dialog(n),
                        nums == dialog_nums(self.dialogs@),
                        forall|j: int| 0 <= j < i ==> #[trigger] nums[j] != n,
                {
                    if self.dialogs[i].num == n {
                        proof {
                            nums.index_of_first_ensures(n);
                            assert(nums[i as int] == n);
                            let k = nums.index_of_first(n)->0;
                            if k < i {
                                assert(nums[k] != n);
                            }
                            if i < k {
                                assert(nums[i as int] != n);
                            }
                        }
                        return Some(TreeRef::Dialog(i));
                    }
                }
                proof {
                    nums.index_of_first_ensures(n);
                    if nums.contains(n) {
                        let k = choose|k: int| 0 <= k < nums.len() && nums[k] == n;
                        assert(nums[k] != n);
                    }
                }
                None
            },
        }
    }

    /// Takes every waiting message and says which tree each goes to, in order; messages
    /// for dialogs that have closed are dropped.
    pub fn route_messages(&mut self) -> (routed: Vec<(TreeRef, M)>)
        ensures
            routed@ == deliveries(old(self).messages@, dialog_nums(old(self).dialogs@)),
            final(self).messages@ == Seq::<UiMessage<M>>::empty(),
            final(self).current_menu == old(self).current_menu,
            final(self).root_tree == old(self).root_tree,
            final(self).dialog_counter == old(self).dialog_counter,
            final(self).dialogs == old(self).dialogs,
    {
        let mut msgs: Vec<UiMessage<M>> = Vec::new();
        std::mem::swap(&mut msgs, &mut self.messages);
        let ghost all = msgs@;
        let ghost nums = dialog_nums(self.dialogs@);
        let mut routed: Vec<(TreeRef, M)> = Vec::new();
        assert(all.take(0) =~= Seq::<UiMessage<M>>::empty());
        for m in it: msgs
            invariant
                it.seq() == all,
                nums == dialog_nums(self.dialogs@),
                routed@ == deliveries(all.take(it.index() as int), nums),
                self.messages@ == Seq::<UiMessage<M>>::empty(),
                self.current_menu == old(self).current_menu,
                self.root_tree == old(self).root_tree,
                self.dialog_counter == old(self).dialog_counter,
                self.dialogs == old(self).dialogs,
        {
            let ghost i = it.index();
            assert(all.take(i + 1).drop_last() =~= all.take(i as int));
            assert(all.take(i + 1).last() == m);
            let ghost before = routed@;
            match self.tree_for(m.owner) {
                Some(t) => {
                    routed.push((t, m.value));
                    assert(routed@ =~= before + seq![(t, m.value)]);
                },
                None => {
                    assert(routed@ =~= before + Seq::<(TreeRef, M)>::empty());
                },
            }
        }
        assert(all.take(all.len() as int) =~= all);
        routed
    }

    /// The order in which trees get input: the top dialog first, the menu last.
    pub fn input_order(&self) -> (order: Vec<TreeRef>)
        ensures
            order@.len() == self.dialogs@.len() + 1,
            forall|i: int| 0 <= i < self.dialogs@.len()
                ==> #[trigger] order@[i] == TreeRef::Dialog((self.dialogs@.len() - 1 - i) as usize),
            order@[self.dialogs@.len() as int] == TreeRef::Root,
    {
        let n = self.dialogs.len();
        let mut order: Vec<TreeRef> = Vec::new();
        let mut k = n;
        while k > 0
            invariant
                k <= n,
                n == self.dialogs@.len(),
                order@.len() == n - k,
                forall|i: int| 0 <= i < n - k ==> #[trigger] order@[i] == TreeRef::Dialog((n - 1 - i) as usize),
            decreases k,
        {
            k = k - 1;
            order.push(TreeRef::Dialog(k));
        }
        order.push(TreeRef::Root);
        order
    }

    /// The order in which trees get events: dialogs from the bottom up, then the menu.
    pub fn event_order(&self) -> (order: Vec<TreeRef>)
        ensures
            order@.len() == self.dialogs@.len() + 1,
            forall|i: int| 0 <= i < self.dialogs@.len() ==> #[trigger] order@[i] == TreeRef::Dialog(i as usize),
            order@[self.dialogs@.len() as int] == TreeRef::Root,
    {
        let n = self.dialogs.len();
        let mut order: Vec<TreeRef> = Vec::new();
        for k in 0..n
            invariant
                n == self.dialogs@.len(),
                order@.len() == k,
                forall|i: int| 0 <= i < k ==> #[trigger] order@[i] == TreeRef::Dialog(i as usize),
        {
            order.push(TreeRef::Dialog(k));
        }
        order.push(TreeRef::Root);
        order
    }

    /// The order in which trees are drawn: the menu, then the dialogs from the top down.
    pub fn draw_order(&self) -> (order: Vec<TreeRef>)
        ensures
            order@.len() == self.dialogs@.len() + 1,
            order@[0] == TreeRef::Root,
            forall|i: int| 0 <= i < self.dialogs@.len()
                ==> #[trigger] order@[i + 1] == TreeRef::Dialog((self.dialogs@.len() - 1 - i) as usize),
    {
        let n = self.dialogs.len();
        let mut order: Vec<TreeRef> = Vec::new();
        order.push(TreeRef::Root);
        let mut k = n;
        while k > 0
            invariant
                k <= n,
                n == self.dialogs@.len(),
                order@.len() == n - k + 1,
                order@[0] == TreeRef::Root,
                forall|i: int| 0 <= i < n - k ==> #[trigger] order@[i + 1] == TreeRef::Dialog((n - 1 - i) as usize),
            decreases k,
        {
            k = k - 1;
            order.push(TreeRef::Dialog(k));
        }
        order
    }

    /// Carries out a UI action on the tree that holds its node (`None`: no tree does).
    /// Dialog actions close a dialog or bring it to the top of the stack; everything else
    /// is applied to the tree by the caller.
    pub fn handle_ui_action(&mut self, tree: Option<TreeRef>, action: UiActionKind) -> (step: UiActionStep<T>)
        requires
            old(self).wf(),
            tree matches Some(TreeRef::Dialog(i)) ==> i < old(self).dialogs@.len(),
        ensures
            final(self).wf(),
            final(self).messages == old(self).messages,
            final(self).current_menu == old(self).current_menu,
            final(self).root_tree == old(self).root_tree,
            final(self).dialog_counter == old(self).dialog_counter,
            match tree {
                None => step is NoTree && final(self).dialogs == old(self).dialogs,
                Some(t) => match action {
                    UiActionKind::Dialog(kind) => match t {
                        TreeRef::Root => step is NotADialog && final(self).dialogs == old(self).dialogs,
                        TreeRef::Dialog(i) => match kind {
                            DialogActionKind::Close => {
                                &&& step matches UiActionStep::Closed(d) && d == old(self).dialogs@[i as int]
                                &&& final(self).dialogs@ == old(self).dialogs@.remove(i as int)
                            },
                            DialogActionKind::BringToFront => {
                                &&& step is MovedToFront
                                &&& final(self).dialogs@ == old(self).dialogs@.remove(i as int).push(
                                    old(self).dialogs@[i as int],
                                )
                            },
                            _ => step == UiActionStep::<T>::ApplyToTree(t) && final(self).dialogs == old(self).dialogs,
                        },
                    },
                    _ => step == UiActionStep::<T>::ApplyToTree(t) && final(self).dialogs == old(self).dialogs,
                },
            },
    {
        let t = match tree {
            None => return UiActionStep::NoTree,
            Some(t) => t,
        };
        match action {
            UiActionKind::Dialog(kind) => match t {
                TreeRef::Root => UiActionStep::NotADialog,
                TreeRef::Dialog(i) => match kind {
                    DialogActionKind::Close => {
                        let d = self.dialogs.remove(i);
                        proof {
                            let nums = dialog_nums(old(self).dialogs@);
                            assert(dialog_nums(self.dialogs@) =~= nums.remove(i as int));
                        }
                        UiActionStep::Closed(d)
                    },
                    DialogActionKind::BringToFront => {
                        let d = self.dialogs.remove(i);
                        self.dialogs.push(d);
                        proof {
                            let nums = dialog_nums(old(self).dialogs@);
                            let new_nums = dialog_nums(self.dialogs@);
                            assert(new_nums =~= nums.remove(i as int).push(nums[i as int]));
                            assert forall|a: int, b: int| 0 <= a < b < new_nums.len() implies new_nums[a] != new_nums[b] by {
                                let oa = if a < i { a } else if a < new_nums.len() - 1 { a + 1 } else { i as int };
                                let ob = if b < i { b } else if b < new_nums.len() - 1 { b + 1 } else { i as int };
                                assert(new_nums[a] == nums[oa]);
                                assert(new_nums[b] == nums[ob]);
                                if oa < ob {
                                    assert(nums[oa] != nums[ob]);
                                } else {
                                    assert(nums[ob] != nums[oa]);
                                }
                            }
                            assert forall|a: int| 0 <= a < new_nums.len() implies new_nums[a] < self.dialog_counter by {
                                let oa = if a < i { a } else if a < new_nums.len() - 1 { a + 1 } else { i as int };
                                assert(new_nums[a] == nums[oa]);
                            }
                        }
                        UiActionStep::MovedToFront
                    },
                    _ => UiActionStep::ApplyToTree(t),
                },
            },
            _ => UiActionStep::ApplyToTree(t),
        }
    }

    /// Plans one frame of UI work: the waiting messages are taken and routed; input goes to
    /// the top dialog first; the frame's events (the game's own, then the keys pressed and
    /// released, with the modifiers held) go to the dialogs from the bottom up and then the
    /// menu; and updates run from the top dialog down to the menu.
    pub fn update<E>(
        &mut self,
        game_events: Vec<E>,
        keys_down: &Vec<Option<GameKey>>,
        keys_up: &Vec<Option<GameKey>>,
        mods: KeyMods,
    ) -> (u: UiUpdate<M, E>)
        ensures
            u.messages@ == deliveries(old(self).messages@, dialog_nums(old(self).dialogs@)),
            u.events@ == frame_events(game_events@, keys_down@, keys_up@, mods),
            final(self).messages@ == Seq::<UiMessage<M>>::empty(),
            final(self).current_menu == old(self).current_menu,
            final(self).root_tree == old(self).root_tree,
            final(self).dialog_counter == old(self).dialog_counter,
            final(self).dialogs == old(self).dialogs,
            u.input_order@.len() == old(self).dialogs@.len() + 1,
            forall|i: int| 0 <= i < old(self).dialogs@.len()
                ==> #[trigger] u.input_order@[i] == TreeRef::Dialog((old(self).dialogs@.len() - 1 - i) as usize),
            u.input_order@[old(self).dialogs@.len() as int] == TreeRef::Root,
            u.update_order@ == u.input_order@,
            u.event_order@.len() == old(self).dialogs@.len() + 1,
            forall|i: int| 0 <= i < old(self).dialogs@.len() ==> #[trigger] u.event_order@[i] == TreeRef::Dialog(i as usize),
            u.event_order@[old(self).dialogs@.len() as int] == TreeRef::Root,
    {
        let input_order = self.input_order();
        let update_order = self.input_order();
        let event_order = self.event_order();
        let messages = self.route_messages();
        let events = build_frame_events(game_events, keys_down, keys_up, mods);
        assert(update_order@ =~= input_order@);
        UiUpdate { messages, events, input_order, event_order, update_order }
    }

    /// The trees that get the new window bounds: the menu, and the dialogs that covered
    /// the old window (`covered_window[i]` for dialog `i`), bottom first.
    pub fn window_size_changed(&self, covered_window: &Vec<bool>) -> (trees: Vec<TreeRef>)
        requires
            covered_window@.len() == self.dialogs@.len(),
        ensures
            trees@ == seq![TreeRef::Root] + resized_dialogs(covered_window@, covered_window@.len()),
    {
        let mut trees: Vec<TreeRef> = Vec::new();
        trees.push(TreeRef::Root);
        for i in 0..covered_window.len()
            invariant
                trees@ == seq![TreeRef::Root] + resized_dialogs(covered_window@, i as nat),
        {
            if covered_window[i] {
                trees.push(TreeRef::Dialog(i));
            }
            assert(trees@ =~= seq![TreeRef::Root] + resized_dialogs(covered_window@, (i + 1) as nat));
        }
        trees
    }

    /// The order in which trees reload the skin: the menu, then the dialogs bottom first.
    pub fn reload_skin(&self) -> (order: Vec<TreeRef>)
        ensures
            order@.len() == self.dialogs@.len() + 1,
            order@[0] == TreeRef::Root,
            forall|i: int| 0 <= i < self.dialogs@.len() ==> #[trigger] order@[i + 1] == TreeRef::Dialog(i as usize),
    {
        let n = self.dialogs.len();
        let mut order: Vec<TreeRef> = Vec::new();
        order.push(TreeRef::Root);
        for k in 0..n
            invariant
                n == self.dialogs@.len(),
                order@.len() == k + 1,
                order@[0] == TreeRef::Root,
                forall|i: int| 0 <= i < k ==> #[trigger] order@[i + 1] == TreeRef::Dialog(i as usize),
        {
            order.push(TreeRef::Dialog(k));
        }
        order
    }
}

/// The dialogs among the first `n` that covered the old window.
pub open spec fn resized_dialogs(covered: Seq<bool>, n: nat) -> Seq<TreeRef>
    decreases n,
{
    if n == 0 {
        Seq::empty()
    } else {
        resized_dialogs(covered, (n - 1) as nat) + if covered[n - 1] {
            seq![TreeRef::Dialog((n - 1) as usize)]
        } else {
            Seq::empty()
        }
    }
}


/// Bringing a dialog to the front keeps every dialog (the same dialogs, as many times
/// each), puts that one on top and leaves the others in their order.
pub proof fn law_bring_to_front_keeps_dialogs<T>(dialogs: Seq<Dialog<T>>, i: int)
    requires
        0 <= i < dialogs.len(),
    ensures
        dialogs.remove(i).push(dialogs[i]).to_multiset() == dialogs.to_multiset(),
        dialogs.remove(i).push(dialogs[i]).last() == dialogs[i],
        forall|j: int| 0 <= j < i ==> #[trigger] dialogs.remove(i).push(dialogs[i])[j] == dialogs[j],
        forall|j: int| i <= j < dialogs.len() - 1 ==> #[trigger] dialogs.remove(i).push(dialogs[i])[j] == dialogs[j + 1],
{
    broadcast use vstd::seq_lib::group_to_multiset_ensures;
    let r = dialogs.remove(i);
    assert(dialogs.remove(i).to_multiset() == dialogs.to_multiset().remove(dialogs[i])) by {
        vstd::seq_lib::to_multiset_remove(dialogs, i);
    }
    vstd::seq_lib::to_multiset_build(r, dialogs[i]);
    assert(dialogs.to_multiset().remove(dialogs[i]).insert(dialogs[i]) =~= dialogs.to_multiset()) by {
        assert(dialogs.to_multiset().count(dialogs[i]) > 0) by {
            assert(dialogs.contains(dialogs[i]));
        }
    }
}

/// Every message for the menu reaches the menu.
pub proof fn law_menu_messages_reach_menu<M>(msgs: Seq<UiMessage<M>>, nums: Seq<usize>, value: M)
    ensures
        deliveries(msgs.push(UiMessage { owner: MessageOwner::Menu, value }), nums).last() == (TreeRef::Root, value),
{
    let m = UiMessage { owner: MessageOwner::Menu, value };
    assert(msgs.push(m).drop_last() =~= msgs);
}


/// A dialog just opened lies on top of the stack, so closing the latest dialog closes it,
/// and messages sent to its number reach it (no other open dialog has that number).
pub proof fn law_opened_dialog_on_top<T>(dialogs: Seq<Dialog<T>>, counter: usize, name: String, tree: T)
    requires
        numbered_below(dialogs, counter),
    ensures
        ({
            let after = dialogs.push(Dialog { num: counter, name, tree });
            &&& after.last().num == counter
            &&& tree_of(dialog_nums(after), MessageOwner::Dialog(counter)) == Some(TreeRef::Dialog(dialogs.len() as usize))
        }),
{
    let after = dialogs.push(Dialog { num: counter, name, tree });
    let nums = dialog_nums(after);
    assert(nums =~= dialog_nums(dialogs).push(counter));
    assert(nums[dialogs.len() as int] == counter);
    nums.index_of_first_ensures(counter);
    let k = nums.index_of_first(counter);
    assert(nums.contains(counter));
    assert(k == Some(dialogs.len() as int)) by {
        let j = k->0;
        if j < dialogs.len() {
            assert(nums[j] == dialog_nums(dialogs)[j]);
        }
    }
}

} // verus!
