//! Who has been given the key of a group session.
//!
//! The ledger of a session records, device by device, that the key was sent
//! and at which message index, and which devices are named in a request that
//! is still on its way.

use vstd::prelude::*;
use crate::text::same_text;

verus! {

/// What a device was given: the key of the session as of a message index,
/// sent to the identity key that the device had then.
#[derive(Debug)]
pub struct ShareInfo {
    pub sender_key: String,
    pub message_index: u32,
}

/// Whether a device has the key of a session.
#[derive(Clone, Copy, Debug, PartialEq, Eq, Structural)]
pub enum ShareState {
    /// The device was not given the key.
    NotShared,
    /// The device was given the key under another identity key than it has now.
    SharedButChangedSenderKey,
    /// The device was given the key as of this message index.
    Shared(u32),
}

/// A device that the key is to be given to.
#[derive(Debug)]
pub struct Recipient {
    pub user_id: String,
    pub device_id: String,
    pub sender_key: String,
}

/// The model of a recipient.
pub struct RecipientView {
    pub user_id: Seq<char>,
    pub device_id: Seq<char>,
    pub sender_key: Seq<char>,
}

impl View for Recipient {
    type V = RecipientView;

    open spec fn view(&self) -> RecipientView {
        RecipientView {
            user_id: self.user_id@,
            device_id: self.device_id@,
            sender_key: self.sender_key@,
        }
    }
}

/// The model of an entry of the ledger: a device and what it was given.
pub struct ShareView {
    pub user_id: Seq<char>,
    pub device_id: Seq<char>,
    pub sender_key: Seq<char>,
    pub message_index: u32,
}

/// The model of an entry that waits for its request to be sent.
pub struct PendingView {
    pub request: u128,
    pub share: ShareView,
}

/// An entry of the ledger as it is written down when the session is stored.
#[derive(Debug)]
pub struct StoredShare {
    pub user_id: String,
    pub device_id: String,
    pub sender_key: String,
    pub message_index: u32,
}

impl View for StoredShare {
    type V = ShareView;

    open spec fn view(&self) -> ShareView {
        ShareView {
            user_id: self.user_id@,
            device_id: self.device_id@,
            sender_key: self.sender_key@,
            message_index: self.message_index,
        }
    }
}

/// An entry that waits for its request, as it is written down.
#[derive(Debug)]
pub struct StoredRequest {
    pub request: u128,
    pub share: StoredShare,
}

impl View for StoredRequest {
    type V = PendingView;

    open spec fn view(&self) -> PendingView {
        PendingView { request: self.request, share: self.share@ }
    }
}

/// The model of a ledger.
pub struct LedgerView {
    /// What was sent, one entry for a device at most.
    pub sent: Seq<ShareView>,
    /// What is on its way, in the order in which it was asked for.
    pub pending: Seq<PendingView>,
}

impl ShareView {
    /// Whether the entry is about the device `device_id` of `user_id`.
    pub open spec fn is_for(self, user_id: Seq<char>, device_id: Seq<char>) -> bool {
        self.user_id == user_id && self.device_id == device_id
    }

    /// What the entry says of a device that now has the identity key `key`.
    pub open spec fn state_for(self, key: Seq<char>) -> ShareState {
        if self.sender_key == key {
            ShareState::Shared(self.message_index)
        } else {
            ShareState::SharedButChangedSenderKey
        }
    }
}

/// What `recipient` is given when the session stands at `message_index`.
pub open spec fn share_for(recipient: RecipientView, message_index: u32) -> ShareView {
    ShareView {
        user_id: recipient.user_id,
        device_id: recipient.device_id,
        sender_key: recipient.sender_key,
        message_index,
    }
}

/// Whether `sent` has an entry for the device.
pub open spec fn sent_to(sent: Seq<ShareView>, user_id: Seq<char>, device_id: Seq<char>) -> bool {
    exists|i: int| 0 <= i < sent.len() && (#[trigger] sent[i]).is_for(user_id, device_id)
}

/// The place of the entry for the device in `sent`, where there is one.
pub open spec fn sent_at(sent: Seq<ShareView>, user_id: Seq<char>, device_id: Seq<char>) -> int {
    choose|i: int| 0 <= i < sent.len() && (#[trigger] sent[i]).is_for(user_id, device_id)
}

/// The first entry for the device in `pending`, if there is one.
pub open spec fn first_pending(
    pending: Seq<PendingView>,
    user_id: Seq<char>,
    device_id: Seq<char>,
) -> Option<ShareView>
    decreases pending.len(),
{
    if pending.len() == 0 {
        None
    } else if pending[0].share.is_for(user_id, device_id) {
        Some(pending[0].share)
    } else {
        first_pending(pending.skip(1), user_id, device_id)
    }
}

/// `sent` with `share` recorded: it takes the place of the entry for its
/// device, or joins at the end where the device has none.
pub open spec fn recorded(sent: Seq<ShareView>, share: ShareView) -> Seq<ShareView> {
    if sent_to(sent, share.user_id, share.device_id) {
        sent.update(sent_at(sent, share.user_id, share.device_id), share)
    } else {
        sent.push(share)
    }
}

/// `sent` after every entry of `pending` that belongs to `request` was
/// recorded, in the order of `pending`.
pub open spec fn settled(sent: Seq<ShareView>, pending: Seq<PendingView>, request: u128) -> Seq<
    ShareView,
>
    decreases pending.len(),
{
    if pending.len() == 0 {
        sent
    } else if pending[0].request == request {
        settled(recorded(sent, pending[0].share), pending.skip(1), request)
    } else {
        settled(sent, pending.skip(1), request)
    }
}

/// The entries of `pending` that do not belong to `request`, in their order.
pub open spec fn others(pending: Seq<PendingView>, request: u128) -> Seq<PendingView>
    decreases pending.len(),
{
    if pending.len() == 0 {
        Seq::empty()
    } else {
        let earlier = others(pending.drop_last(), request);
        if pending.last().request == request {
            earlier
        } else {
            earlier.push(pending.last())
        }
    }
}

/// Whether `pending` has an entry that belongs to `request`.
pub open spec fn awaits(pending: Seq<PendingView>, request: u128) -> bool {
    exists|i: int| 0 <= i < pending.len() && (#[trigger] pending[i]).request == request
}

/// `pending` with an entry for each of `recipients` added, in their order.
pub open spec fn asked(
    pending: Seq<PendingView>,
    request: u128,
    recipients: Seq<RecipientView>,
    message_index: u32,
) -> Seq<PendingView> {
    pending + Seq::new(
        recipients.len(),
        |i: int| PendingView { request, share: share_for(recipients[i], message_index) },
    )
}

/// Whether no device has two entries in `sent`.
pub open spec fn one_entry_each(sent: Seq<ShareView>) -> bool {
    forall|i: int, j: int|
        0 <= i < j < sent.len() ==> !(#[trigger] sent[i]).is_for(
            (#[trigger] sent[j]).user_id,
            sent[j].device_id,
        )
}

impl LedgerView {
    /// What holds of every ledger: no device has two entries among what was sent.
    pub open spec fn wf(self) -> bool {
        one_entry_each(self.sent)
    }

    /// Whether the key was sent to the device or is on its way to it.
    pub open spec fn names(self, user_id: Seq<char>, device_id: Seq<char>) -> bool {
        sent_to(self.sent, user_id, device_id) || first_pending(
            self.pending,
            user_id,
            device_id,
        ) is Some
    }

    /// Whether the device has the key, going by what was sent to it, or else
    /// by the first request on its way that names it.
    pub open spec fn state_of(self, user_id: Seq<char>, device_id: Seq<char>, key: Seq<char>) -> ShareState {
        if sent_to(self.sent, user_id, device_id) {
            self.sent[sent_at(self.sent, user_id, device_id)].state_for(key)
        } else {
            match first_pending(self.pending, user_id, device_id) {
                Some(share) => share.state_for(key),
                None => ShareState::NotShared,
            }
        }
    }
}

#[derive(Debug)]
struct Share {
    user_id: String,
    device_id: String,
    sender_key: String,
    message_index: u32,
}

#[derive(Debug)]
struct Pending {
    request: u128,
    share: Share,
}

impl Share {
    spec fn model(self) -> ShareView {
        ShareView {
            user_id: self.user_id@,
            device_id: self.device_id@,
            sender_key: self.sender_key@,
            message_index: self.message_index,
        }
    }

    fn duplicate(&self) -> (r: Share)
        ensures
            r.model() == self.model(),
    {
        Share {
            user_id: self.user_id.clone(),
            device_id: self.device_id.clone(),
            sender_key: self.sender_key.clone(),
            message_index: self.message_index,
        }
    }

    fn state_for(&self, key: &str) -> (r: ShareState)
        ensures
            r == self.model().state_for(key@),
    {
        if same_text(self.sender_key.as_str(), key) {
            ShareState::Shared(self.message_index)
        } else {
            ShareState::SharedButChangedSenderKey
        }
    }

    fn is_for(&self, user_id: &str, device_id: &str) -> (r: bool)
        ensures
            r == self.model().is_for(user_id@, device_id@),
    {
        same_text(self.user_id.as_str(), user_id) && same_text(self.device_id.as_str(), device_id)
    }
}

impl Pending {
    spec fn model(self) -> PendingView {
        PendingView { request: self.request, share: self.share.model() }
    }
}

spec fn share_models(entries: Seq<Share>) -> Seq<ShareView> {
    Seq::new(entries.len(), |i: int| entries[i].model())
}

spec fn pending_models(entries: Seq<Pending>) -> Seq<PendingView> {
    Seq::new(entries.len(), |i: int| entries[i].model())
}

/// The ledger of a group session.
#[derive(Debug)]
pub struct ShareLedger {
    sent: Vec<Share>,
    pending: Vec<Pending>,
}

impl View for ShareLedger {
    type V = LedgerView;

    closed spec fn view(&self) -> LedgerView {
        LedgerView { sent: share_models(self.sent@), pending: pending_models(self.pending@) }
    }
}

/// Where `sent` has the entry for the device, if it has one.
fn find_sent(sent: &Vec<Share>, user_id: &str, device_id: &str) -> (r: Option<usize>)
    requires
        one_entry_each(share_models(sent@)),
    ensures
        match r {
            Some(at) => sent_to(share_models(sent@), user_id@, device_id@) && at == sent_at(
                share_models(sent@),
                user_id@,
                device_id@,
            ) && at < sent@.len(),
            None => !sent_to(share_models(sent@), user_id@, device_id@),
        },
{
    let ghost models = share_models(sent@);
    let mut i: usize = 0;
    while i < sent.len()
        invariant
            i <= sent.len(),
            models == share_models(sent@),
            one_entry_each(models),
            forall|k: int| 0 <= k < i ==> !(#[trigger] models[k]).is_for(user_id@, device_id@),
        decreases sent.len() - i,
    {
        assert(models[i as int] == sent@[i as int].model());
        if sent[i].is_for(user_id, device_id) {
            proof {
                let chosen = sent_at(models, user_id@, device_id@);
                assert(models[i as int].is_for(user_id@, device_id@));
                assert(models[chosen].is_for(user_id@, device_id@));
                if chosen < i {
                    assert(!models[chosen].is_for(models[i as int].user_id, models[i as int].device_id));
                } else if chosen > i {
                    assert(!models[i as int].is_for(models[chosen].user_id, models[chosen].device_id));
                }
            }
            return Some(i);
        }
        i += 1;
    }
    None
}

/// Records `share` in `sent`.
fn record(sent: &mut Vec<Share>, share: Share)
    requires
        one_entry_each(share_models(old(sent)@)),
    ensures
        one_entry_each(share_models(final(sent)@)),
        share_models(final(sent)@) == recorded(share_models(old(sent)@), share.model()),
{
    let ghost before = share_models(sent@);
    let ghost entry = share.model();
    match find_sent(sent, share.user_id.as_str(), share.device_id.as_str()) {
        Some(at) => {
            sent.set(at, share);
            proof {
                let after = share_models(sent@);
                assert(after =~= before.update(at as int, entry));
                assert forall|i: int, j: int| 0 <= i < j < after.len() implies !(
                #[trigger] after[i]).is_for((#[trigger] after[j]).user_id, after[j].device_id) by {
                    assert(before[at as int].is_for(entry.user_id, entry.device_id));
                    let x = before[i];
                    let y = before[j];
                    assert(!x.is_for(y.user_id, y.device_id));
                    if i == at {
                        assert(!before[at as int].is_for(y.user_id, y.device_id));
                    } else if j == at {
                        assert(!x.is_for(before[at as int].user_id, before[at as int].device_id));
                    }
                }
            }
        },
        None => {
            sent.push(share);
            proof {
                let after = share_models(sent@);
                assert(after =~= before.push(entry));
                assert forall|i: int, j: int| 0 <= i < j < after.len() implies !(
                #[trigger] after[i]).is_for((#[trigger] after[j]).user_id, after[j].device_id) by {
                    if j < before.len() {
                        assert(after[i] == before[i]);
                        assert(after[j] == before[j]);
                    } else {
                        assert(after[i] == before[i]);
                        assert(!before[i].is_for(entry.user_id, entry.device_id));
                    }
                }
            }
        },
    }
}

impl ShareLedger {
    /// A ledger with nothing in it.
    pub fn new() -> (r: ShareLedger)
        ensures
            r@.wf(),
            r@.sent.len() == 0,
            r@.pending.len() == 0,
    {
        ShareLedger { sent: Vec::new(), pending: Vec::new() }
    }

    /// The ledger with the entries `sent` and `pending`, as they were
    /// written down, or nothing where a device has two entries in `sent`.
    pub fn restore(sent: &Vec<StoredShare>, pending: &Vec<StoredRequest>) -> (r: Option<
        ShareLedger,
    >)
        ensures
            match r {
                Some(ledger) => {
                    &&& ledger@.wf()
                    &&& ledger@.sent == sent@.map_values(|e: StoredShare| e@)
                    &&& ledger@.pending == pending@.map_values(|e: StoredRequest| e@)
                },
                None => !one_entry_each(sent@.map_values(|e: StoredShare| e@)),
            },
    {
        let ghost given = sent@.map_values(|e: StoredShare| e@);
        let mut shares: Vec<Share> = Vec::new();
        let mut i: usize = 0;
        while i < sent.len()
            invariant
                i <= sent.len(),
                given == sent@.map_values(|e: StoredShare| e@),
                share_models(shares@) == given.take(i as int),
                one_entry_each(share_models(shares@)),
            decreases sent.len() - i,
        {
            let ghost so_far = share_models(shares@);
            let entry = &sent[i];
            match find_sent(&shares, entry.user_id.as_str(), entry.device_id.as_str()) {
                Some(at) => {
                    proof {
                        assert(so_far[at as int] == given[at as int]);
                        assert(given[at as int].is_for(given[i as int].user_id, given[i as int].device_id));
                    }
                    return None;
                },
                None => {},
            }
            shares.push(
                Share {
                    user_id: entry.user_id.clone(),
                    device_id: entry.device_id.clone(),
                    sender_key: entry.sender_key.clone(),
                    message_index: entry.message_index,
                },
            );
            proof {
                let after = share_models(shares@);
                assert(after =~= so_far.push(given[i as int]));
                assert(after =~= given.take(i + 1));
                assert forall|a: int, b: int| 0 <= a < b < after.len() implies !(
                #[trigger] after[a]).is_for((#[trigger] after[b]).user_id, after[b].device_id) by {
                    assert(after[a] == so_far[a]);
                    if b < so_far.len() {
                        assert(after[b] == so_far[b]);
                    }
                }
            }
            i += 1;
        }
        assert(given.take(sent@.len() as int) =~= given);
        let mut waiting: Vec<Pending> = Vec::new();
        let mut j: usize = 0;
        while j < pending.len()
            invariant
                j <= pending.len(),
                waiting@.len() == j,
                forall|k: int| 0 <= k < j ==> (#[trigger] waiting@[k]).model() == pending@[k]@,
            decreases pending.len() - j,
        {
            let entry = &pending[j];
            waiting.push(
                Pending {
                    request: entry.request,
                    share: Share {
                        user_id: entry.share.user_id.clone(),
                        device_id: entry.share.device_id.clone(),
                        sender_key: entry.share.sender_key.clone(),
                        message_index: entry.share.message_index,
                    },
                },
            );
            j += 1;
        }
        assert(pending_models(waiting@) =~= pending@.map_values(|e: StoredRequest| e@));
        Some(ShareLedger { sent: shares, pending: waiting })
    }

    /// What was sent, as it is written down when the session is stored.
    pub fn stored_shares(&self) -> (r: Vec<StoredShare>)
        ensures
            r@.map_values(|e: StoredShare| e@) == self@.sent,
    {
        let mut stored: Vec<StoredShare> = Vec::new();
        let mut i: usize = 0;
        while i < self.sent.len()
            invariant
                i <= self.sent.len(),
                stored@.len() == i,
                forall|k: int| 0 <= k < i ==> (#[trigger] stored@[k])@ == self.sent@[k].model(),
            decreases self.sent.len() - i,
        {
            let entry = &self.sent[i];
            stored.push(
                StoredShare {
                    user_id: entry.user_id.clone(),
                    device_id: entry.device_id.clone(),
                    sender_key: entry.sender_key.clone(),
                    message_index: entry.message_index,
                },
            );
            i += 1;
        }
        assert(stored@.map_values(|e: StoredShare| e@) =~= self@.sent);
        stored
    }

    /// What is on its way, as it is written down when the session is stored.
    pub fn stored_requests(&self) -> (r: Vec<StoredRequest>)
        ensures
            r@.map_values(|e: StoredRequest| e@) == self@.pending,
    {
        let mut stored: Vec<StoredRequest> = Vec::new();
        let mut i: usize = 0;
        while i < self.pending.len()
            invariant
                i <= self.pending.len(),
                stored@.len() == i,
                forall|k: int| 0 <= k < i ==> (#[trigger] stored@[k])@ == self.pending@[k].model(),
            decreases self.pending.len() - i,
        {
            let entry = &self.pending[i];
            stored.push(
                StoredRequest {
                    request: entry.request,
                    share: StoredShare {
                        user_id: entry.share.user_id.clone(),
                        device_id: entry.share.device_id.clone(),
                        sender_key: entry.share.sender_key.clone(),
                        message_index: entry.share.message_index,
                    },
                },
            );
            i += 1;
        }
        assert(stored@.map_values(|e: StoredRequest| e@) =~= self@.pending);
        stored
    }

    /// What was sent to the device `device_id` of `user_id`, if the key was
    /// sent to it.
    pub fn share_info(&self, user_id: &str, device_id: &str) -> (r: Option<ShareInfo>)
        requires
            self@.wf(),
        ensures
            match r {
                Some(info) => {
                    &&& sent_to(self@.sent, user_id@, device_id@)
                    &&& info.sender_key@ == self@.sent[sent_at(
                        self@.sent,
                        user_id@,
                        device_id@,
                    )].sender_key
                    &&& info.message_index == self@.sent[sent_at(
                        self@.sent,
                        user_id@,
                        device_id@,
                    )].message_index
                },
                None => !sent_to(self@.sent, user_id@, device_id@),
            },
    {
        match find_sent(&self.sent, user_id, device_id) {
            Some(at) => {
                assert(self@.sent[at as int] == self.sent@[at as int].model());
                Some(
                    ShareInfo {
                        sender_key: self.sent[at].sender_key.clone(),
                        message_index: self.sent[at].message_index,
                    },
                )
            },
            None => None,
        }
    }

    /// Whether the key was sent to the device `device_id` of `user_id` or is
    /// on its way to it.
    pub fn names(&self, user_id: &str, device_id: &str) -> (r: bool)
        requires
            self@.wf(),
        ensures
            r == self@.names(user_id@, device_id@),
    {
        match self.state_of(user_id, device_id, "") {
            ShareState::NotShared => false,
            _ => true,
        }
    }

    /// Whether a request is on its way.
    pub fn has_pending(&self) -> (r: bool)
        ensures
            r == (self@.pending.len() > 0),
    {
        self.pending.len() > 0
    }

    /// Whether the device `device_id` of `user_id`, which now has the
    /// identity key `key`, has the key of the session.
    pub fn state_of(&self, user_id: &str, device_id: &str, key: &str) -> (r: ShareState)
        requires
            self@.wf(),
        ensures
            r == self@.state_of(user_id@, device_id@, key@),
    {
        match find_sent(&self.sent, user_id, device_id) {
            Some(at) => {
                assert(self@.sent[at as int] == self.sent@[at as int].model());
                self.sent[at].state_for(key)
            },
            None => {
                let ghost pending = self@.pending;
                let mut i: usize = 0;
                assert(pending.skip(0) =~= pending);
                while i < self.pending.len()
                    invariant
                        i <= self.pending.len(),
                        pending == pending_models(self.pending@),
                        pending == self@.pending,
                        !sent_to(self@.sent, user_id@, device_id@),
                        first_pending(pending, user_id@, device_id@) == first_pending(
                            pending.skip(i as int),
                            user_id@,
                            device_id@,
                        ),
                    decreases self.pending.len() - i,
                {
                    assert(pending.skip(i as int)[0] == self.pending@[i as int].model());
                    assert(pending.skip(i as int).skip(1) =~= pending.skip(i + 1));
                    if self.pending[i].share.is_for(user_id, device_id) {
                        return self.pending[i].share.state_for(key);
                    }
                    i += 1;
                }
                ShareState::NotShared
            },
        }
    }

    /// Notes that the request `request` offers the key, as of
    /// `message_index`, to each of `recipients`.
    pub fn add_request(&mut self, request: u128, recipients: &Vec<Recipient>, message_index: u32)
        requires
            old(self)@.wf(),
        ensures
            final(self)@.wf(),
            final(self)@.sent == old(self)@.sent,
            final(self)@.pending == asked(
                old(self)@.pending,
                request,
                recipients@.map_values(|r: Recipient| r@),
                message_index,
            ),
    {
        let ghost before = self@.pending;
        let ghost named = recipients@.map_values(|r: Recipient| r@);
        let mut i: usize = 0;
        while i < recipients.len()
            invariant
                i <= recipients.len(),
                self.sent == old(self).sent,
                named == recipients@.map_values(|r: Recipient| r@),
                self@.pending == before + Seq::new(
                    i as nat,
                    |k: int| PendingView { request, share: share_for(named[k], message_index) },
                ),
            decreases recipients.len() - i,
        {
            let ghost so_far = self@.pending;
            let recipient = &recipients[i];
            self.pending.push(
                Pending {
                    request,
                    share: Share {
                        user_id: recipient.user_id.clone(),
                        device_id: recipient.device_id.clone(),
                        sender_key: recipient.sender_key.clone(),
                        message_index,
                    },
                },
            );
            assert(self@.pending =~= so_far.push(
                PendingView { request, share: share_for(named[i as int], message_index) },
            ));
            assert(self@.pending =~= before + Seq::new(
                (i + 1) as nat,
                |k: int| PendingView { request, share: share_for(named[k], message_index) },
            ));
            i += 1;
        }
    }

    /// Records that the key was sent to `recipient` as of `message_index`.
    pub fn mark_shared_with(&mut self, recipient: &Recipient, message_index: u32)
        requires
            old(self)@.wf(),
        ensures
            final(self)@.wf(),
            final(self)@.pending == old(self)@.pending,
            final(self)@.sent == recorded(old(self)@.sent, share_for(recipient@, message_index)),
    {
        record(
            &mut self.sent,
            Share {
                user_id: recipient.user_id.clone(),
                device_id: recipient.device_id.clone(),
                sender_key: recipient.sender_key.clone(),
                message_index,
            },
        );
    }

    /// Records that the request `request` was sent: what it offered counts
    /// as given, and nothing of it is on its way any more. Says whether the
    /// ledger knew of the request.
    pub fn mark_request_as_sent(&mut self, request: u128) -> (r: bool)
        requires
            old(self)@.wf(),
        ensures
            final(self)@.wf(),
            r == awaits(old(self)@.pending, request),
            final(self)@.sent == settled(old(self)@.sent, old(self)@.pending, request),
            final(self)@.pending == others(old(self)@.pending, request),
    {
        let ghost sent_before = self@.sent;
        let ghost pending = self@.pending;
        let mut rest: Vec<Pending> = Vec::new();
        let mut known = false;
        let mut i: usize = 0;
        assert(pending.skip(0) =~= pending);
        assert(pending.take(0) =~= Seq::<PendingView>::empty());
        assert(pending_models(rest@) =~= Seq::<PendingView>::empty());
        while i < self.pending.len()
            invariant
                i <= self.pending.len(),
                self.pending == old(self).pending,
                pending == pending_models(self.pending@),
                one_entry_each(share_models(self.sent@)),
                settled(sent_before, pending, request) == settled(
                    share_models(self.sent@),
                    pending.skip(i as int),
                    request,
                ),
                pending_models(rest@) == others(pending.take(i as int), request),
                known == awaits(pending.take(i as int), request),
            decreases self.pending.len() - i,
        {
            let ghost kept = pending_models(rest@);
            assert(pending.skip(i as int)[0] == self.pending@[i as int].model());
            assert(pending.skip(i as int).skip(1) =~= pending.skip(i + 1));
            assert(pending.take(i + 1).drop_last() =~= pending.take(i as int));
            assert(pending.take(i + 1).last() == self.pending@[i as int].model());
            let entry = &self.pending[i];
            if entry.request == request {
                record(&mut self.sent, entry.share.duplicate());
                known = true;
                assert(pending.take(i + 1)[i as int].request == request);
            } else {
                rest.push(Pending { request: entry.request, share: entry.share.duplicate() });
                assert(pending_models(rest@) =~= kept.push(self.pending@[i as int].model()));
                assert(awaits(pending.take(i + 1), request) == awaits(
                    pending.take(i as int),
                    request,
                )) by {
                    if awaits(pending.take(i + 1), request) {
                        let k = choose|k: int|
                            0 <= k < pending.take(i + 1).len() && (#[trigger] pending.take(
                                i + 1,
                            )[k]).request == request;
                        assert(pending.take(i as int)[k].request == request);
                    }
                    if awaits(pending.take(i as int), request) {
                        let k = choose|k: int|
                            0 <= k < pending.take(i as int).len() && (#[trigger] pending.take(
                                i as int,
                            )[k]).request == request;
                        assert(pending.take(i + 1)[k].request == request);
                    }
                }
            }
            i += 1;
        }
        assert(pending.take(self.pending@.len() as int) =~= pending);
        assert(pending.skip(self.pending@.len() as int) =~= Seq::<PendingView>::empty());
        self.pending = rest;
        known
    }
}

} // verus!
