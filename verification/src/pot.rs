//! Per-session playback queues and the continuation engine.
//!
//! A [`SystemPlaylist`] maps each session (guild) id to an ordered queue of
//! [`PlaylistItem`]s plus a "currently playing" flag. Queues are FIFO:
//! [`SystemPlaylist::add`] appends at the tail, [`SystemPlaylist::consume`]
//! removes from the head and is the only operation that removes single items.
//! [`SystemPlaylist::advance`] is the engine step that drives playback:
//! it pops the next track to acquire, or marks the session idle when the
//! queue is exhausted.

use std::collections::HashMap;
use vstd::prelude::*;

verus! {

/// Canonical metadata for one playable item. Immutable once constructed;
/// copied by value into session queues.
#[derive(Debug, Clone, PartialEq, Eq)]
pub struct PlaylistItem {
    /// Platform-specific identifier.
    pub id: String,
    /// Human-readable title.
    pub title: String,
    /// Canonical playable URL.
    pub original_url: String,
    /// Tag identifying which resolver produced this record.
    pub extractor: String,
    pub thumbnail: Option<String>,
    /// Duration in whole seconds, when the source reports one.
    pub duration: Option<u64>,
    pub playlist_id: Option<String>,
    pub webpage_url: Option<String>,
    pub is_live: Option<bool>,
    pub was_live: Option<bool>,
}

/// Marker type under which the process-wide [`SystemPlaylist`] is stored
/// by the embedding application's shared-state registry.
pub struct SystemPlaylistData;

/// Process-wide store: one queue and one playing flag per session id.
///
/// A session's queue is created lazily on first successful `add` and never
/// implicitly deleted; an orphaned empty, non-playing entry is harmless.
pub struct SystemPlaylist {
    guilds_playlists: HashMap<u64, Vec<PlaylistItem>>,
    guilds_playing: HashMap<u64, bool>,
}

impl SystemPlaylist {
    /// Whether a queue entry exists for `guild` (even an empty one).
    pub closed spec fn has_queue(self, guild: u64) -> bool {
        self.guilds_playlists@.contains_key(guild)
    }

    /// The queue of `guild`: its items in play order. A session without a
    /// queue entry reads as empty.
    pub closed spec fn queue(self, guild: u64) -> Seq<PlaylistItem> {
        if self.guilds_playlists@.contains_key(guild) {
            self.guilds_playlists@[guild]@
        } else {
            Seq::<PlaylistItem>::empty()
        }
    }

    /// The playing flag of `guild`. An unknown session reads as not playing.
    pub closed spec fn playing(self, guild: u64) -> bool {
        self.guilds_playing@.contains_key(guild) && self.guilds_playing@[guild]
    }

    /// Creates an empty store: no session has a queue, none is playing.
    pub fn new() -> (r: Self)
        ensures
            forall|g: u64| !(#[trigger] r.has_queue(g)),
            forall|g: u64| (#[trigger] r.queue(g)) == Seq::<PlaylistItem>::empty(),
            forall|g: u64| !(#[trigger] r.playing(g)),
    {
        Self { guilds_playlists: HashMap::new(), guilds_playing: HashMap::new() }
    }

    /// Sets the playing flag of `guild`; every other session is untouched.
    pub fn set_status(&mut self, guild: u64, is_playing: bool)
        ensures
            final(self).playing(guild) == is_playing,
            forall|h: u64| h != guild ==> #[trigger] final(self).playing(h) == old(self).playing(h),
            forall|h: u64| #[trigger] final(self).queue(h) == old(self).queue(h),
            forall|h: u64| #[trigger] final(self).has_queue(h) == old(self).has_queue(h),
    {
        self.guilds_playing.insert(guild, is_playing);
    }

    /// Reads the playing flag of `guild`; `false` for an unknown session.
    pub fn is_playing(&self, guild: u64) -> (r: bool)
        ensures
            r == self.playing(guild),
    {
        match self.guilds_playing.get(&guild) {
            Some(b) => *b,
            None => false,
        }
    }
}

/// How one [`SystemPlaylist::consume`] call on `guild` relates the store
/// before (`pre`) and after (`post`): the head of the queue is removed and
/// returned, an empty or absent queue yields `None`, and nothing else —
/// no flag, no other session, not the existence of the entry — changes.
pub open spec fn consume_transition(
    pre: SystemPlaylist,
    post: SystemPlaylist,
    guild: u64,
    r: Option<PlaylistItem>,
) -> bool {
    &&& if pre.queue(guild).len() > 0 {
        &&& r == Some(pre.queue(guild)[0])
        &&& post.queue(guild) == pre.queue(guild).drop_first()
    } else {
        &&& r is None
        &&& post.queue(guild) == pre.queue(guild)
    }
    &&& post.has_queue(guild) == pre.has_queue(guild)
    &&& forall|h: u64| #[trigger] post.playing(h) == pre.playing(h)
    &&& forall|h: u64| h != guild ==> #[trigger] post.queue(h) == pre.queue(h)
    &&& forall|h: u64| h != guild ==> #[trigger] post.has_queue(h) == pre.has_queue(h)
}

impl SystemPlaylist {
    /// Removes and returns the head item of `guild`'s queue; `None` if the
    /// session has no queue or the queue is empty. This is the only
    /// operation that removes single items from a queue.
    pub fn consume(&mut self, guild: u64) -> (r: Option<PlaylistItem>)
        ensures
            consume_transition(*old(self), *final(self), guild, r),
    {
        match self.guilds_playlists.remove(&guild) {
            Some(mut items) => {
                if items.len() == 0 {
                    self.guilds_playlists.insert(guild, items);
                    None
                } else {
                    let item = items.remove(0);
                    self.guilds_playlists.insert(guild, items);
                    proof {
                        assert(final(self).queue(guild) =~= old(self).queue(guild).drop_first());
                    }
                    Some(item)
                }
            },
            None => None,
        }
    }

    /// Empties `guild`'s queue and reports whether a queue existed. The
    /// session entry itself persists; the playing flag is untouched.
    pub fn clear(&mut self, guild: u64) -> (r: bool)
        ensures
            r == old(self).has_queue(guild),
            final(self).queue(guild) == Seq::<PlaylistItem>::empty(),
            final(self).has_queue(guild) == old(self).has_queue(guild),
            forall|h: u64| #[trigger] final(self).playing(h) == old(self).playing(h),
            forall|h: u64| h != guild ==> #[trigger] final(self).queue(h) == old(self).queue(h),
            forall|h: u64|
                h != guild ==> #[trigger] final(self).has_queue(h) == old(self).has_queue(h),
    {
        match self.guilds_playlists.remove(&guild) {
            Some(mut items) => {
                items.clear();
                self.guilds_playlists.insert(guild, items);
                true
            },
            None => false,
        }
    }
}

/// The items that one [`SystemPlaylist::add`] call appends: every resolved
/// item in order when the input was a URL, at most the first one when it
/// was a free-text search.
pub open spec fn added_items(resolved: Seq<PlaylistItem>, from_url: bool) -> Seq<PlaylistItem> {
    if from_url {
        resolved
    } else if resolved.len() > 0 {
        resolved.subrange(0, 1)
    } else {
        resolved
    }
}

/// How one [`SystemPlaylist::add`] call relates the store before and after:
/// the selected items are appended at the tail of `guild`'s queue, the entry
/// is created when the input was a URL or anything was resolved, the count
/// of appended items is returned, and no flag or other session changes.
pub open spec fn add_transition(
    pre: SystemPlaylist,
    post: SystemPlaylist,
    guild: u64,
    resolved: Seq<PlaylistItem>,
    from_url: bool,
    r: usize,
) -> bool {
    &&& post.queue(guild) == pre.queue(guild) + added_items(resolved, from_url)
    &&& r == added_items(resolved, from_url).len()
    &&& post.has_queue(guild) == (pre.has_queue(guild) || from_url || resolved.len() > 0)
    &&& forall|h: u64| #[trigger] post.playing(h) == pre.playing(h)
    &&& forall|h: u64| h != guild ==> #[trigger] post.queue(h) == pre.queue(h)
    &&& forall|h: u64| h != guild ==> #[trigger] post.has_queue(h) == pre.has_queue(h)
}

impl SystemPlaylist {
    /// Appends resolved items to `guild`'s queue and returns how many were
    /// appended. `from_url` says whether the resolver ran against a URL
    /// (possibly multi-item; all items are kept, in order) or against a
    /// free-text search (at most the first item is kept). Creates the
    /// session's queue on first use.
    pub fn add(&mut self, guild: u64, resolved: Vec<PlaylistItem>, from_url: bool) -> (r: usize)
        ensures
            add_transition(*old(self), *final(self), guild, resolved@, from_url, r),
    {
        let mut items = resolved;
        if !from_url {
            items.truncate(1);
        }
        let count = items.len();
        proof {
            assert(items@ =~= added_items(resolved@, from_url));
        }
        match self.guilds_playlists.remove(&guild) {
            Some(mut queue_items) => {
                queue_items.append(&mut items);
                self.guilds_playlists.insert(guild, queue_items);
            },
            None => {
                if from_url || count > 0 {
                    self.guilds_playlists.insert(guild, items);
                    proof {
                        assert(final(self).queue(guild) =~= old(self).queue(guild) + added_items(
                            resolved@,
                            from_url,
                        ));
                    }
                }
            },
        }
        count
    }
}

/// How one engine step ([`SystemPlaylist::advance`]) relates the store
/// before and after. A non-empty queue hands out its head to be acquired
/// and marks the session playing; an exhausted queue marks it idle — the
/// terminal path. Consumed items are never requeued.
pub open spec fn advance_transition(
    pre: SystemPlaylist,
    post: SystemPlaylist,
    guild: u64,
    r: Option<PlaylistItem>,
) -> bool {
    &&& if pre.queue(guild).len() > 0 {
        &&& r == Some(pre.queue(guild)[0])
        &&& post.queue(guild) == pre.queue(guild).drop_first()
        &&& post.playing(guild)
    } else {
        &&& r is None
        &&& post.queue(guild) == pre.queue(guild)
        &&& !post.playing(guild)
    }
    &&& post.has_queue(guild) == pre.has_queue(guild)
    &&& forall|h: u64| h != guild ==> #[trigger] post.playing(h) == pre.playing(h)
    &&& forall|h: u64| h != guild ==> #[trigger] post.queue(h) == pre.queue(h)
    &&& forall|h: u64| h != guild ==> #[trigger] post.has_queue(h) == pre.has_queue(h)
}

impl SystemPlaylist {
    /// One step of the playback continuation engine, invoked after a
    /// successful add on an idle session, on an explicit skip, and on a
    /// track-ended notification.
    ///
    /// Pops the next track and marks the session playing, so the caller can
    /// acquire a stream for it and start output; when acquisition fails the
    /// caller simply calls `advance` again (the failed track stays
    /// consumed), so a mostly-unplayable queue is drained by this loop
    /// rather than by recursive self-invocation. Returns `None` once the
    /// queue is exhausted: the session is then marked idle and the caller
    /// runs the terminal path (notify, disconnect).
    pub fn advance(&mut self, guild: u64) -> (r: Option<PlaylistItem>)
        ensures
            advance_transition(*old(self), *final(self), guild, r),
    {
        match self.consume(guild) {
            Some(item) => {
                self.set_status(guild, true);
                Some(item)
            },
            None => {
                self.set_status(guild, false);
                None
            },
        }
    }
}

/// What a manual skip decided, for the caller to report and act on.
#[derive(Debug, PartialEq, Eq)]
pub enum SkipStep {
    /// The next track, already marked playing: acquire and play it.
    Skipped(PlaylistItem),
    /// The queue is exhausted: the session was marked idle; run the
    /// terminal path (notify, disconnect).
    QueueEnded,
    /// The session was not playing: nothing to skip, nothing changed.
    NothingToPlay,
}

impl SystemPlaylist {
    /// The decision step of a manual skip, taken after the caller has
    /// already stopped the current output (so the stopped track's natural
    /// end notification cannot advance a second time). A playing session
    /// takes exactly one engine step — dropping exactly one item when the
    /// queue is non-empty — and an idle one is left untouched.
    pub fn song_skip_step(&mut self, guild: u64) -> (r: SkipStep)
        ensures
            old(self).playing(guild) ==> match r {
                SkipStep::Skipped(item) => advance_transition(
                    *old(self),
                    *final(self),
                    guild,
                    Some(item),
                ),
                SkipStep::QueueEnded => advance_transition(*old(self), *final(self), guild, None),
                SkipStep::NothingToPlay => false,
            },
            !old(self).playing(guild) ==> (r matches SkipStep::NothingToPlay && *final(self)
                == *old(self)),
    {
        if self.is_playing(guild) {
            match self.advance(guild) {
                Some(item) => SkipStep::Skipped(item),
                None => SkipStep::QueueEnded,
            }
        } else {
            SkipStep::NothingToPlay
        }
    }
}

/// Add semantics: a URL add returns exactly the number of resolved items,
/// a search add returns `1` when anything was resolved and `0` otherwise —
/// never more — and the queue grows by exactly the returned count.
pub proof fn lemma_add_semantics(
    pre: SystemPlaylist,
    post: SystemPlaylist,
    guild: u64,
    resolved: Seq<PlaylistItem>,
    from_url: bool,
    count: usize,
)
    requires
        add_transition(pre, post, guild, resolved, from_url, count),
    ensures
        from_url ==> count == resolved.len(),
        !from_url ==> count <= 1,
        !from_url ==> (count == 1 <==> resolved.len() > 0),
        post.queue(guild).len() == pre.queue(guild).len() + count,
{
}

/// Idle invariant: when an engine step finds the queue exhausted and
/// returns `None`, the session reads as not playing afterwards.
pub proof fn lemma_idle_after_exhaustion(
    pre: SystemPlaylist,
    post: SystemPlaylist,
    guild: u64,
)
    requires
        advance_transition(pre, post, guild, None),
    ensures
        !post.playing(guild),
{
}

/// Skip-advance equivalence: an engine step on a non-empty queue — which
/// is what a skip performs after stopping the output — drops exactly one
/// item, the head, and plays it; the rest of the queue is untouched.
pub proof fn lemma_skip_drops_exactly_one(
    pre: SystemPlaylist,
    post: SystemPlaylist,
    guild: u64,
    item: PlaylistItem,
)
    requires
        advance_transition(pre, post, guild, Some(item)),
    ensures
        pre.queue(guild).len() > 0,
        item == pre.queue(guild)[0],
        post.queue(guild) == pre.queue(guild).drop_first(),
        post.queue(guild).len() == pre.queue(guild).len() - 1,
        post.playing(guild),
{
}

/// FIFO law: appending three items to an empty queue and consuming three
/// times returns them in the order they were added, leaving the queue
/// empty. `items` are the resolved items of a URL add, so all three are
/// appended.
pub proof fn lemma_fifo_order(
    s0: SystemPlaylist,
    s1: SystemPlaylist,
    s2: SystemPlaylist,
    s3: SystemPlaylist,
    s4: SystemPlaylist,
    guild: u64,
    items: Seq<PlaylistItem>,
    count: usize,
    r1: Option<PlaylistItem>,
    r2: Option<PlaylistItem>,
    r3: Option<PlaylistItem>,
)
    requires
        s0.queue(guild).len() == 0,
        items.len() == 3,
        add_transition(s0, s1, guild, items, true, count),
        consume_transition(s1, s2, guild, r1),
        consume_transition(s2, s3, guild, r2),
        consume_transition(s3, s4, guild, r3),
    ensures
        r1 == Some(items[0]),
        r2 == Some(items[1]),
        r3 == Some(items[2]),
        s4.queue(guild).len() == 0,
{
    assert(s1.queue(guild) =~= items);
    assert(s2.queue(guild) =~= items.drop_first());
    assert(s3.queue(guild) =~= items.drop_first().drop_first());
}

/// Retry-until-exhaustion: on a three-item queue, three engine steps hand
/// out the three items in order — in the driving loop the first two were
/// acquisition failures, after each of which the engine is simply stepped
/// again, so a failed track is consumed exactly once and never requeued —
/// and after the third step the session is playing with an empty queue.
pub proof fn lemma_retry_until_exhaustion(
    s0: SystemPlaylist,
    s1: SystemPlaylist,
    s2: SystemPlaylist,
    s3: SystemPlaylist,
    guild: u64,
    r1: Option<PlaylistItem>,
    r2: Option<PlaylistItem>,
    r3: Option<PlaylistItem>,
)
    requires
        s0.queue(guild).len() == 3,
        advance_transition(s0, s1, guild, r1),
        advance_transition(s1, s2, guild, r2),
        advance_transition(s2, s3, guild, r3),
    ensures
        r1 == Some(s0.queue(guild)[0]),
        r2 == Some(s0.queue(guild)[1]),
        r3 == Some(s0.queue(guild)[2]),
        s3.queue(guild).len() == 0,
        s3.playing(guild),
{
    assert(s1.queue(guild) =~= s0.queue(guild).drop_first());
    assert(s2.queue(guild) =~= s0.queue(guild).drop_first().drop_first());
}

/// Terminal idempotence: stepping the engine on an exhausted queue marks
/// the session idle, and stepping it again — two "queue finished" triggers
/// in a row — returns `None` again and changes nothing observable, for any
/// session.
pub proof fn lemma_terminal_idempotent(
    s0: SystemPlaylist,
    s1: SystemPlaylist,
    s2: SystemPlaylist,
    guild: u64,
    r1: Option<PlaylistItem>,
    r2: Option<PlaylistItem>,
)
    requires
        s0.queue(guild).len() == 0,
        advance_transition(s0, s1, guild, r1),
        advance_transition(s1, s2, guild, r2),
    ensures
        r1 is None,
        r2 is None,
        !s1.playing(guild),
        !s2.playing(guild),
        s2.queue(guild) == s0.queue(guild),
        forall|h: u64| #[trigger] s2.queue(h) == s1.queue(h),
        forall|h: u64| #[trigger] s2.playing(h) == s1.playing(h),
        forall|h: u64| #[trigger] s2.has_queue(h) == s1.has_queue(h),
{
}

impl Default for SystemPlaylist {
    /// Same as [`SystemPlaylist::new`].
    fn default() -> (r: Self)
        ensures
            forall|g: u64| !(#[trigger] r.has_queue(g)),
            forall|g: u64| (#[trigger] r.queue(g)) == Seq::<PlaylistItem>::empty(),
            forall|g: u64| !(#[trigger] r.playing(g)),
    {
        Self::new()
    }
}

} // verus!
