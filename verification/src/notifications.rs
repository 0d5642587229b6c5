use vstd::prelude::*;
use vstd::string::*;

verus! {

/// The colors notifications are shown in.
#[derive(Clone, Copy, Debug, PartialEq, Eq, Structural)]
pub enum NotificationColor {
    White,
    Red,
    Green,
    Yellow,
    Blue,
    LightBlue,
    Purple,
    PurpleAmethyst,
    Cyan,
}

/// What clicking a notification does.
#[derive(Debug)]
pub enum NotificationOnClick {
    Nothing,
    Url(String),
    File(String),
    MultiplayerLobby(u32),
}

/// The mathematical value of a [`NotificationOnClick`].
pub enum OnClickView {
    Nothing,
    Url(Seq<char>),
    File(Seq<char>),
    MultiplayerLobby(u32),
}

impl View for NotificationOnClick {
    type V = OnClickView;

    open spec fn view(&self) -> OnClickView {
        match self {
            NotificationOnClick::Nothing => OnClickView::Nothing,
            NotificationOnClick::Url(u) => OnClickView::Url(u@),
            NotificationOnClick::File(f) => OnClickView::File(f@),
            NotificationOnClick::MultiplayerLobby(id) => OnClickView::MultiplayerLobby(*id),
        }
    }
}

impl NotificationOnClick {
    /// A copy of this click action.
    pub fn duplicate(&self) -> (r: NotificationOnClick)
        ensures
            r@ == self@,
    {
        match self {
            NotificationOnClick::Nothing => NotificationOnClick::Nothing,
            NotificationOnClick::Url(u) => NotificationOnClick::Url(u.clone()),
            NotificationOnClick::File(f) => NotificationOnClick::File(f.clone()),
            NotificationOnClick::MultiplayerLobby(id) => NotificationOnClick::MultiplayerLobby(*id),
        }
    }
}

/// A message shown to the user for a while in the corner of the screen.
#[derive(Debug)]
pub struct Notification {
    pub text: String,
    pub color: NotificationColor,
    /// how long the notification stays, in milliseconds
    pub duration_ms: u64,
    pub onclick: NotificationOnClick,
}

/// The mathematical value of a [`Notification`].
#[verifier::ext_equal]
pub struct NotificationView {
    pub text: Seq<char>,
    pub color: NotificationColor,
    pub duration_ms: u64,
    pub onclick: OnClickView,
}

impl View for Notification {
    type V = NotificationView;

    open spec fn view(&self) -> NotificationView {
        NotificationView {
            text: self.text@,
            color: self.color,
            duration_ms: self.duration_ms,
            onclick: self.onclick@,
        }
    }
}

/// How long error notifications stay, in milliseconds.
pub const ERROR_NOTIFICATION_MS: u64 = 5_000;

/// The text of an error notification: `"{title}: {detail}"`.
pub open spec fn error_text(title: Seq<char>, detail: Seq<char>) -> Seq<char> {
    title + seq![':', ' '] + detail
}

impl Notification {
    /// A notification without a click action.
    pub fn new_text(text: String, color: NotificationColor, duration_ms: u64) -> (n: Notification)
        ensures
            n@ == (NotificationView { text: text@, color, duration_ms, onclick: OnClickView::Nothing }),
    {
        Notification { text, color, duration_ms, onclick: NotificationOnClick::Nothing }
    }

    /// A notification with a click action.
    pub fn new(text: String, color: NotificationColor, duration_ms: u64, onclick: NotificationOnClick) -> (n: Notification)
        ensures
            n@ == (NotificationView { text: text@, color, duration_ms, onclick: onclick@ }),
    {
        Notification { text, color, duration_ms, onclick }
    }

    /// A red error notification reading `"{title}: {detail}"`.
    pub fn new_error(title: &str, detail: &str) -> (n: Notification)
        ensures
            n@ == (NotificationView {
                text: error_text(title@, detail@),
                color: NotificationColor::Red,
                duration_ms: ERROR_NOTIFICATION_MS,
                onclick: OnClickView::Nothing,
            }),
    {
        let mut text = String::from_str(title);
        proof { reveal_strlit(": "); }
        text.append(": ");
        text.append(detail);
        assert(text@ =~= error_text(title@, detail@));
        Notification { text, color: NotificationColor::Red, duration_ms: ERROR_NOTIFICATION_MS, onclick: NotificationOnClick::Nothing }
    }
}

/// A notification on screen, with the time it was added.
#[derive(Debug)]
pub struct ProcessedNotif {
    pub notification: Notification,
    /// when the notification was added, in milliseconds of game time
    pub added_ms: u64,
    /// set once the notification was clicked
    pub remove: bool,
}

/// Milliseconds from `start` to `now`, or 0 if `now` is earlier.
pub open spec fn elapsed(start: u64, now: u64) -> nat {
    if now >= start { (now - start) as nat } else { 0 }
}

/// Whether a notification stays on screen at time `now`.
pub open spec fn still_shown(n: ProcessedNotif, now: u64) -> bool {
    !n.remove && elapsed(n.added_ms, now) < n.notification.duration_ms
}

impl ProcessedNotif {
    /// A notification added at time `now_ms`.
    pub fn new(notification: Notification, now_ms: u64) -> (p: ProcessedNotif)
        ensures
            p.notification == notification,
            p.added_ms == now_ms,
            !p.remove,
    {
        ProcessedNotif { notification, added_ms: now_ms, remove: false }
    }

    /// Whether the notification was not clicked and its time has not run out.
    pub fn check_time(&self, now_ms: u64) -> (b: bool)
        ensures
            b == still_shown(*self, now_ms),
    {
        if self.remove {
            return false;
        }
        let elapsed = if now_ms >= self.added_ms { now_ms - self.added_ms } else { 0 };
        elapsed < self.notification.duration_ms
    }
}

/// The notifications on screen, oldest first, and the skin's notification image (`I`), if
/// it has one.
#[derive(Debug)]
pub struct NotificationManager<I> {
    pub notifications: Vec<ProcessedNotif>,
    pub notification_image: Option<I>,
}

/// The skin texture notifications are drawn on.
pub const NOTIFICATION_TEXTURE: &'static str = "notification";

impl<I> NotificationManager<I> {
    /// No notifications, and no image yet.
    pub fn new() -> (m: NotificationManager<I>)
        ensures
            m.notifications@.len() == 0,
            m.notification_image is None,
    {
        NotificationManager { notifications: Vec::new(), notification_image: None }
    }

    /// Takes the skin's notification image (loaded from [`NOTIFICATION_TEXTURE`]).
    pub fn reload_skin(&mut self, image: Option<I>)
        ensures
            final(self).notification_image == image,
            final(self).notifications == old(self).notifications,
    {
        self.notification_image = image;
    }

    /// The order notifications are drawn in, from the bottom of the screen up: the newest
    /// first. Positions count from the oldest.
    pub fn draw(&self) -> (order: Vec<usize>)
        ensures
            order@.len() == self.notifications@.len(),
            forall|i: int| 0 <= i < order@.len() ==> #[trigger] order@[i] == self.notifications@.len() - 1 - i,
    {
        let n = self.notifications.len();
        let mut order: Vec<usize> = Vec::new();
        let mut k = n;
        while k > 0
            invariant
                k <= n,
                n == self.notifications@.len(),
                order@.len() == n - k,
                forall|i: int| 0 <= i < n - k ==> #[trigger] order@[i] == n - 1 - i,
            decreases k,
        {
            k = k - 1;
            order.push(k);
        }
        order
    }

    /// Shows a notification from time `now_ms` on.
    pub fn add_notification(&mut self, notif: Notification, now_ms: u64)
        ensures
            final(self).notifications@ == old(self).notifications@.push(
                ProcessedNotif { notification: notif, added_ms: now_ms, remove: false },
            ),
            final(self).notification_image == old(self).notification_image,
    {
        self.notifications.push(ProcessedNotif::new(notif, now_ms));
    }

    /// Drops the notifications that were clicked or whose time ran out, keeping the order.
    pub fn update(&mut self, now_ms: u64)
        ensures
            final(self).notifications@ == old(self).notifications@.filter(
                |n: ProcessedNotif| still_shown(n, now_ms),
            ),
            final(self).notification_image == old(self).notification_image,
    {
        let ghost old_list = self.notifications@;
        let mut kept: Vec<ProcessedNotif> = Vec::new();
        let mut rest: Vec<ProcessedNotif> = Vec::new();
        std::mem::swap(&mut rest, &mut self.notifications);
        assert(rest@ == old_list);
        let n = rest.len();
        for notif in it: rest
            invariant
                n == old_list.len(),
                it.seq() == old_list,
                kept@ == old_list.take(it.index() as int).filter(|n: ProcessedNotif| still_shown(n, now_ms)),
                self.notification_image == old(self).notification_image,
        {
            let ghost i = it.index();
            proof { reveal(Seq::filter); }
            assert(old_list.take(i + 1).drop_last() =~= old_list.take(i as int));
            assert(notif == old_list[i as int]);
            if notif.check_time(now_ms) {
                kept.push(notif);
            }
        }
        assert(old_list.take(n as int) =~= old_list);
        self.notifications = kept;
    }

    /// Handles a click: `hit[i]` tells whether the click landed on notification `i` (counted
    /// from the oldest). The first notification hit is marked for removal and its click
    /// action is returned; `None` when no notification was hit.
    pub fn on_click(&mut self, hit: &Vec<bool>) -> (r: Option<NotificationOnClick>)
        requires
            hit@.len() == old(self).notifications@.len(),
        ensures
            final(self).notifications@.len() == old(self).notifications@.len(),
            final(self).notification_image == old(self).notification_image,
            match r {
                None => (forall|i: int| 0 <= i < hit@.len() ==> !#[trigger] hit@[i])
                    && final(self).notifications@ == old(self).notifications@,
                Some(action) => exists|i: int|
                    0 <= i < hit@.len() && hit@[i]
                    && (forall|j: int| 0 <= j < i ==> !#[trigger] hit@[j])
                    && action@ == old(self).notifications@[i].notification.onclick@
                    && final(self).notifications@ == old(self).notifications@.update(
                        i,
                        ProcessedNotif { remove: true, ..old(self).notifications@[i] },
                    ),
            },
    {
        let mut i: usize = 0;
        while i < hit.len()
            invariant
                hit@.len() == self.notifications@.len(),
                self.notifications@ == old(self).notifications@,
                self.notification_image == old(self).notification_image,
                i <= hit@.len(),
                forall|j: int| 0 <= j < i ==> !#[trigger] hit@[j],
            decreases hit@.len() - i,
        {
            if hit[i] {
                let action = self.notifications[i].notification.onclick.duplicate();
                let mut list: Vec<ProcessedNotif> = Vec::new();
                std::mem::swap(&mut list, &mut self.notifications);
                let mut notif = list.remove(i);
                notif.remove = true;
                list.insert(i, notif);
                proof {
                    assert(list@ =~= old(self).notifications@.update(
                        i as int,
                        ProcessedNotif { remove: true, ..old(self).notifications@[i as int] },
                    ));
                }
                self.notifications = list;
                return Some(action);
            }
            i += 1;
        }
        None
    }
}


/// Updating the notifications twice at the same time drops nothing more than once.
pub proof fn law_update_idempotent(list: Seq<ProcessedNotif>, now_ms: u64)
    ensures
        list.filter(|n: ProcessedNotif| still_shown(n, now_ms)).filter(|n: ProcessedNotif| still_shown(n, now_ms))
            == list.filter(|n: ProcessedNotif| still_shown(n, now_ms)),
    decreases list.len(),
{
    reveal(Seq::filter);
    if list.len() > 0 {
        law_update_idempotent(list.drop_last(), now_ms);
        let f = list.filter(|n: ProcessedNotif| still_shown(n, now_ms));
        let fr = list.drop_last().filter(|n: ProcessedNotif| still_shown(n, now_ms));
        if still_shown(list.last(), now_ms) {
            assert(f =~= fr.push(list.last()));
            assert(f.drop_last() =~= fr);
        } else {
            assert(f =~= fr);
        }
    }
}

/// A notification added now, with a duration, is still shown by an update at the same
/// time.
pub proof fn law_new_notification_shown(list: Seq<ProcessedNotif>, notif: Notification, now_ms: u64)
    requires
        notif.duration_ms > 0,
    ensures
        list.push(ProcessedNotif { notification: notif, added_ms: now_ms, remove: false }).filter(
            |n: ProcessedNotif| still_shown(n, now_ms),
        ).last() == (ProcessedNotif { notification: notif, added_ms: now_ms, remove: false }),
{
    reveal(Seq::filter);
    let n = ProcessedNotif { notification: notif, added_ms: now_ms, remove: false };
    assert(list.push(n).drop_last() =~= list);
}

} // verus!
