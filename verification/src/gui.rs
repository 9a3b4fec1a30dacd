//! The event protocol between the UI thread and the store worker, and the
//! UI-visible snapshot of the store.
//!
//! Requests (`GetEntryFromDB`, `DeleteEntryFromDB`, `InsertEntryToDB`) travel
//! from the UI to a single background worker, which runs the store operation
//! and answers with responses (`SetEntries`, `SetSelectedEntry`) that the UI
//! drains in order on each frame. For an insertion the worker enqueues the
//! list replacement strictly before the selection replacement, so a consumer
//! draining in order never sees a selection that the list does not hold.
//! When a store operation yields nothing to report, the worker stays silent.

use crate::db::has_id;
use crate::db::PassEntry;
use crate::db::Store;
use crate::password::Password;
use vstd::prelude::*;

verus! {

/// The messages of the two channels: the first four are requests the UI
/// issues, the last two are responses the worker publishes.
pub enum Event {
    DeleteEntryFromDB(i64),
    GetEntryFromDB(i64),
    GetPassword(Password),
    InsertEntryToDB(PassEntry),
    SetEntries(Vec<PassEntry>),
    SetSelectedEntry(Option<PassEntry>),
}

/// The transient add-form of the UI: visibility toggles and the editable
/// draft fields of a new record.
#[derive(Debug, Clone)]
pub struct AddForm {
    pub show: bool,
    pub show_pass: bool,
    pub auto_pass: bool,
    pub name: String,
    pub url: String,
    pub passphrase: String,
    pub notes: String,
}

/// The UI's snapshot of the store: the listed records, the selected record
/// if any, and the add-form. It changes only by applying worker responses.
#[derive(Debug, Clone)]
pub struct AppState {
    pub selected_entry: Option<PassEntry>,
    pub entries: Vec<PassEntry>,
    pub add_form: AddForm,
}

/// What the worker guarantees for one handled request: how the store
/// changes and exactly which responses are published, in which order.
pub open spec fn handle_events_ok(event: Event, pre: Store, post: Store, responses: Seq<Event>) -> bool {
    match event {
        Event::GetEntryFromDB(id) => {
            &&& post == pre
            &&& if has_id(pre.entries@, id) {
                responses.len() == 1 && (responses[0] matches Event::SetSelectedEntry(Some(e))
                    && e.id == id && pre.entries@.contains(e))
            } else {
                responses.len() == 0
            }
        },
        Event::DeleteEntryFromDB(id) => {
            &&& post.next_id == pre.next_id
            &&& forall|j: int|
                0 <= j < post.entries@.len() ==> (#[trigger] post.entries@[j]).id != id
            &&& if has_id(pre.entries@, id) {
                exists|i: int|
                    0 <= i < pre.entries@.len() && pre.entries@[i].id == id && post.entries@
                        == pre.entries@.remove(i)
            } else {
                post == pre
            }
            &&& responses.len() == 1
            &&& (responses[0] matches Event::SetEntries(l) && l@ == post.entries@)
        },
        Event::InsertEntryToDB(draft) => {
            if draft.username@.len() > 0 && draft.passphrase@.len() > 0 && pre.next_id
                < i64::MAX {
                &&& post.next_id == pre.next_id + 1
                &&& responses.len() == 2
                &&& (responses[0] matches Event::SetEntries(l) && l@ == post.entries@)
                &&& (responses[1] matches Event::SetSelectedEntry(Some(e)) && e.id == pre.next_id
                    && e.username@ == draft.username@ && e.url@ == draft.url@
                    && e.passphrase@ == draft.passphrase@ && e.notes@ == draft.notes@
                    && post.entries@ == pre.entries@.push(e))
            } else {
                &&& post == pre
                &&& responses.len() == 0
            }
        },
        _ => post == pre && responses.len() == 0,
    }
}

/// The worker's handling of one request: runs the store operation the
/// request names and publishes the responses, list replacement strictly
/// before selection replacement. A failed operation publishes nothing it
/// cannot answer; a deletion answers with the refreshed list whether or not
/// the identifier was present, as the store leaves it absent either way.
pub fn handle_events(event: Event, store: &mut Store) -> (responses: Vec<Event>)
    requires
        old(store).wf(),
    ensures
        final(store).wf(),
        handle_events_ok(event, *old(store), *final(store), responses@),
{
    let mut responses: Vec<Event> = Vec::new();
    match event {
        Event::GetEntryFromDB(entry_id) => {
            if let Some(entry) = store.get_by_id(entry_id) {
                responses.push(Event::SetSelectedEntry(Some(entry)));
            }
        },
        Event::DeleteEntryFromDB(entry_id) => {
            let _ = store.delete_by_id(entry_id);
            let entries = store.list_all();
            responses.push(Event::SetEntries(entries));
        },
        Event::InsertEntryToDB(entry) => {
            if !entry.username.as_str().is_empty() && !entry.passphrase.as_str().is_empty() {
                match store.insert(entry) {
                    Ok(new_entry) => {
                        let entries = store.list_all();
                        responses.push(Event::SetEntries(entries));
                        responses.push(Event::SetSelectedEntry(Some(new_entry)));
                    },
                    Err(_) => {},
                }
            }
        },
        _ => {},
    }
    responses
}

/// Whether some record of `entries` carries the identifier `id`.
pub fn contains_id(entries: &Vec<PassEntry>, id: i64) -> (r: bool)
    ensures
        r == has_id(entries@, id),
{
    let n = entries.len();
    let mut i: usize = 0;
    while i < n
        invariant
            i <= n,
            n == entries@.len(),
            forall|j: int| 0 <= j < i ==> (#[trigger] entries@[j]).id != id,
        decreases n - i,
    {
        if entries[i].id == id {
            proof {
                assert(entries@[i as int].id == id);
            }
            return true;
        }
        i = i + 1;
    }
    false
}

/// How applying one response changes the snapshot: a selection replacement
/// replaces the selection alone; a list replacement replaces the list and
/// clears the selection exactly when the selected identifier is no longer
/// listed; a request-side message changes nothing.
pub open spec fn apply_event_ok(event: Event, pre: AppState, post: AppState) -> bool {
    match event {
        Event::SetSelectedEntry(entry) => {
            &&& post.selected_entry == entry
            &&& post.entries@ == pre.entries@
            &&& post.add_form == pre.add_form
        },
        Event::SetEntries(entries) => {
            &&& post.entries@ == entries@
            &&& post.add_form == pre.add_form
            &&& match pre.selected_entry {
                Some(sel) => if has_id(entries@, sel.id) {
                    post.selected_entry == pre.selected_entry
                } else {
                    post.selected_entry is None
                },
                None => post.selected_entry is None,
            }
        },
        _ => post == pre,
    }
}

/// Whether `post` is what applying the responses of `events`, in order,
/// makes of the snapshot `pre`.
pub open spec fn applied_all(pre: AppState, events: Seq<Event>, post: AppState) -> bool
    decreases events.len(),
{
    if events.len() == 0 {
        post == pre
    } else {
        exists|mid: AppState|
            #[trigger] apply_event_ok(events[0], pre, mid) && applied_all(
                mid,
                events.drop_first(),
                post,
            )
    }
}

/// Applying a batch and then one more response is applying the batch
/// extended by that response.
pub proof fn lemma_applied_all_push(
    pre: AppState,
    events: Seq<Event>,
    mid: AppState,
    event: Event,
    post: AppState,
)
    requires
        applied_all(pre, events, mid),
        apply_event_ok(event, mid, post),
    ensures
        applied_all(pre, events.push(event), post),
    decreases events.len(),
{
    if events.len() == 0 {
        assert(mid == pre);
        assert(events.push(event)[0] == event);
        assert(events.push(event).drop_first() =~= Seq::<Event>::empty());
        assert(apply_event_ok(events.push(event)[0], pre, post));
        assert(applied_all(post, events.push(event).drop_first(), post));
    } else {
        let m1 = choose|m: AppState|
            #[trigger] apply_event_ok(events[0], pre, m) && applied_all(
                m,
                events.drop_first(),
                mid,
            );
        lemma_applied_all_push(m1, events.drop_first(), mid, event, post);
        assert(events.push(event).drop_first() =~= events.drop_first().push(event));
        assert(events.push(event)[0] == events[0]);
        assert(apply_event_ok(events.push(event)[0], pre, m1));
        assert(applied_all(m1, events.push(event).drop_first(), post));
    }
}

impl AppState {
    /// The snapshot the UI starts from: the full load of the store, no
    /// selection, and a hidden add-form holding a freshly generated
    /// passphrase and otherwise empty draft fields.
    pub fn new(entries: Vec<PassEntry>, passphrase: String) -> (s: AppState)
        ensures
            s.selected_entry is None,
            s.entries@ == entries@,
            s.add_form.show == false,
            s.add_form.show_pass == false,
            s.add_form.auto_pass == true,
            s.add_form.name@ == Seq::<char>::empty(),
            s.add_form.url@ == Seq::<char>::empty(),
            s.add_form.passphrase@ == passphrase@,
            s.add_form.notes@ == Seq::<char>::empty(),
    {
        AppState {
            selected_entry: None,
            entries,
            add_form: AddForm {
                show: false,
                show_pass: false,
                auto_pass: true,
                name: String::new(),
                url: String::new(),
                passphrase,
                notes: String::new(),
            },
        }
    }

    /// Applies one worker response to the snapshot.
    pub fn apply_event(&mut self, event: &Event)
        ensures
            apply_event_ok(*event, *old(self), *final(self)),
    {
        match event {
            Event::SetSelectedEntry(entry) => {
                self.selected_entry = entry.clone();
            },
            Event::SetEntries(entries) => {
                let mut clear = false;
                match &self.selected_entry {
                    Some(sel) => {
                        clear = !contains_id(entries, sel.id);
                    },
                    None => {},
                }
                if clear {
                    self.selected_entry = None;
                }
                self.entries = entries.clone();
            },
            _ => {},
        }
    }

    /// Drains a batch of worker responses, applying them in receipt order.
    pub fn handle_gui_events(&mut self, events: &Vec<Event>)
        ensures
            applied_all(*old(self), events@, *final(self)),
    {
        let n = events.len();
        let mut i: usize = 0;
        while i < n
            invariant
                i <= n,
                n == events@.len(),
                applied_all(*old(self), events@.take(i as int), *self),
            decreases n - i,
        {
            let ghost pre_iter = *self;
            self.apply_event(&events[i]);
            proof {
                lemma_applied_all_push(
                    *old(self),
                    events@.take(i as int),
                    pre_iter,
                    events@[i as int],
                    *self,
                );
                assert(events@.take(i as int).push(events@[i as int]) =~= events@.take(
                    i as int + 1,
                ));
            }
            i = i + 1;
        }
        proof {
            assert(events@.take(n as int) =~= events@);
        }
    }
}

impl AddForm {
    /// The request the submit action issues: a draft insertion carrying the
    /// form's fields and the unsaved-record sentinel identifier, or nothing
    /// when the name or the passphrase is empty.
    pub fn submit_request(&self) -> (r: Option<Event>)
        ensures
            match r {
                Some(e) => {
                    &&& self.name@.len() > 0
                    &&& self.passphrase@.len() > 0
                    &&& (e matches Event::InsertEntryToDB(d) && d.id == -1
                        && d.username@ == self.name@ && d.url@ == self.url@
                        && d.passphrase@ == self.passphrase@ && d.notes@ == self.notes@)
                },
                None => self.name@.len() == 0 || self.passphrase@.len() == 0,
            },
    {
        if !self.name.as_str().is_empty() && !self.passphrase.as_str().is_empty() {
            Some(
                Event::InsertEntryToDB(
                    PassEntry {
                        id: -1,
                        username: self.name.clone(),
                        url: self.url.clone(),
                        passphrase: self.passphrase.clone(),
                        notes: self.notes.clone(),
                    },
                ),
            )
        } else {
            None
        }
    }
}

/// Inserting a draft and letting the UI drain the worker's responses in
/// receipt order leaves a snapshot that lists the freshly assigned record
/// and selects it: because the list replacement is enqueued strictly before
/// the selection replacement, the selection never dangles.
pub proof fn lemma_insert_then_refresh_selects_new_entry(
    draft: PassEntry,
    pre_store: Store,
    post_store: Store,
    responses: Seq<Event>,
    pre_ui: AppState,
    post_ui: AppState,
)
    requires
        draft.username@.len() > 0,
        draft.passphrase@.len() > 0,
        pre_store.next_id < i64::MAX,
        handle_events_ok(Event::InsertEntryToDB(draft), pre_store, post_store, responses),
        applied_all(pre_ui, responses, post_ui),
    ensures
        post_ui.selected_entry matches Some(e) && e.id == pre_store.next_id,
        has_id(post_ui.entries@, pre_store.next_id),
        post_ui.selected_entry matches Some(e) ==> has_id(post_ui.entries@, e.id),
{
    let mid1 = choose|m: AppState|
        #[trigger] apply_event_ok(responses[0], pre_ui, m) && applied_all(
            m,
            responses.drop_first(),
            post_ui,
        );
    let rest = responses.drop_first();
    let mid2 = choose|m: AppState|
        #[trigger] apply_event_ok(rest[0], mid1, m) && applied_all(m, rest.drop_first(), post_ui);
    assert(rest.drop_first().len() == 0);
    assert(post_ui == mid2);
    let new_entry = choose|e: PassEntry|
        responses[1] == Event::SetSelectedEntry(Some(e)) && e.id == pre_store.next_id;
    assert(rest[0] == responses[1]);
    assert(post_store.entries@.last() == new_entry);
    assert(has_id(post_ui.entries@, pre_store.next_id)) by {
        assert(post_ui.entries@[post_ui.entries@.len() - 1] == new_entry);
    }
}

/// Deleting a record and letting the UI drain the worker's responses leaves
/// a snapshot that lists no record with the deleted identifier and never
/// keeps it selected.
pub proof fn lemma_delete_then_refresh_clears_selection(
    id: i64,
    pre_store: Store,
    post_store: Store,
    responses: Seq<Event>,
    pre_ui: AppState,
    post_ui: AppState,
)
    requires
        handle_events_ok(Event::DeleteEntryFromDB(id), pre_store, post_store, responses),
        applied_all(pre_ui, responses, post_ui),
    ensures
        forall|j: int|
            0 <= j < post_ui.entries@.len() ==> (#[trigger] post_ui.entries@[j]).id != id,
        post_ui.selected_entry matches Some(e) ==> e.id != id,
{
    let mid = choose|m: AppState|
        #[trigger] apply_event_ok(responses[0], pre_ui, m) && applied_all(
            m,
            responses.drop_first(),
            post_ui,
        );
    assert(responses.drop_first().len() == 0);
    assert(post_ui == mid);
}

} // verus!
