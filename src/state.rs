use vstd::prelude::*;
use crate::collection::{Collection, CollectionMessage};
use crate::nav::{NavHandle, NavModel, NavEntry};

verus! {

/// The persistent part of the application: the collections and which one
/// is current.
pub struct AppData {
    pub collections: Vec<Collection>,
    pub current_index: usize,
}

/// The position that `current` becomes among `n` collections: itself when
/// it is in range, else the last position, and 0 when there is none.
pub open spec fn clamped(current: usize, n: nat) -> usize {
    if n == 0 {
        0
    } else if current < n {
        current
    } else {
        (n - 1) as usize
    }
}

impl AppData {
    /// The current position is in range, or 0 when there are no collections.
    pub open spec fn wf(self) -> bool {
        self.current_index == clamped(self.current_index, self.collections@.len())
    }

    /// No collections, position 0.
    pub fn empty() -> (r: AppData)
        ensures
            r.collections@.len() == 0,
            r.current_index == 0,
            r.wf(),
    {
        AppData { collections: Vec::new(), current_index: 0 }
    }

    /// Data restored from storage, with the current position clamped into
    /// range.
    pub fn restore(collections: Vec<Collection>, current_index: usize) -> (r: AppData)
        ensures
            r.collections == collections,
            r.current_index == clamped(current_index, collections@.len()),
            r.wf(),
    {
        let n = collections.len();
        let current_index: usize = if n == 0 {
            0
        } else if current_index < n {
            current_index
        } else {
            n - 1
        };
        AppData { collections, current_index }
    }
}

/// Restoring the collections and position of a well-formed state gives
/// that state back: the clamping on load changes nothing that the library
/// itself produced.
pub proof fn lemma_restore_keeps_wf_state(d: AppData)
    requires
        d.wf(),
    ensures
        clamped(d.current_index, d.collections@.len()) == d.current_index,
{
}

impl Default for AppData {
    fn default() -> (r: AppData)
        ensures
            r.collections@.len() == 0,
            r.current_index == 0,
    {
        AppData::empty()
    }
}

/// Messages handled by the application.
#[derive(Debug, Clone)]
pub enum Message {
    /// Route a message to the collection at this position.
    CollectionMessage(usize, CollectionMessage),
    /// Create a collection named by the dialog input.
    NewCollection,
    /// Remove the collection that the handle resolves to.
    RemoveCollection(NavHandle),
    /// Select the entry that the handle stands for.
    SelectCollection(NavHandle),
    /// Open the creation dialog.
    ShowDialog,
    /// Close the creation dialog without creating anything.
    HideDialog,
    /// Replace the dialog input.
    DialogInputChanged(String),
    /// Do nothing.
    Nothing,
}

/// The top-level controller: the data, its navigation index, and the
/// creation dialog.
pub struct App {
    pub data: AppData,
    pub nav_model: NavModel,
    pub show_dialog: bool,
    pub dialog_input: String,
}

impl App {
    /// The data is well formed and the index lists its collections.
    pub open spec fn wf(self) -> bool {
        &&& self.data.wf()
        &&& self.data.collections@.len() < usize::MAX
        &&& self.nav_model.indexes(self.data.collections@.len())
    }

    /// The collections are those of `old` with the one at `i` replaced by
    /// `c`.
    pub open spec fn replaced_at(self, old: App, i: int, c: Collection) -> bool {
        self.data.collections@ == old.data.collections@.update(i, c)
    }

    /// Starts from loaded data, with a freshly built index and the dialog
    /// closed.
    pub fn init(data: AppData) -> (r: App)
        requires
            data.wf(),
            data.collections@.len() < usize::MAX,
        ensures
            r.wf(),
            r.data == data,
            !r.show_dialog,
            r.dialog_input@.len() == 0,
    {
        let n = data.collections.len();
        App {
            data,
            nav_model: NavModel::build(n, 0),
            show_dialog: false,
            dialog_input: String::new(),
        }
    }

    /// Regenerates the navigation index from the collections.
    pub fn update_nav_model(&mut self)
        requires
            old(self).data.collections@.len() < usize::MAX,
        ensures
            final(self).data == old(self).data,
            final(self).show_dialog == old(self).show_dialog,
            final(self).dialog_input == old(self).dialog_input,
            final(self).nav_model.indexes(old(self).data.collections@.len()),
            final(self).nav_model.generation != old(self).nav_model.generation,
    {
        self.nav_model = self.nav_model.rebuilt(self.data.collections.len());
    }

    /// The current collection, if there is one.
    pub fn get_current_collection(&self) -> (r: Option<&Collection>)
        ensures
            r == (if self.data.current_index < self.data.collections@.len() {
                Some(&self.data.collections@[self.data.current_index as int])
            } else {
                None
            }),
    {
        if self.data.current_index < self.data.collections.len() {
            Some(&self.data.collections[self.data.current_index])
        } else {
            None
        }
    }

    /// Whether the dialog's create action is offered: only for a non-empty
    /// name.
    pub fn can_create(&self) -> (r: bool)
        ensures
            r == (self.dialog_input@.len() != 0),
    {
        !self.dialog_input.as_str().is_empty()
    }

    /// Appends an empty collection named `name` and rebuilds the index; an
    /// empty name changes nothing. The current position stays where it was.
    pub fn create_collection(&mut self, name: String)
        requires
            old(self).wf(),
            old(self).data.collections@.len() + 1 < usize::MAX,
        ensures
            final(self).wf(),
            final(self).show_dialog == old(self).show_dialog,
            final(self).dialog_input == old(self).dialog_input,
            final(self).data.current_index == old(self).data.current_index,
            name@.len() == 0 ==> final(self).data.collections@ == old(self).data.collections@,
            name@.len() == 0 ==> final(self).nav_model == old(self).nav_model,
            name@.len() != 0 ==> final(self).data.collections@.len() == old(self).data.collections@.len() + 1,
            name@.len() != 0 ==> final(self).data.collections@.drop_last() == old(self).data.collections@,
            name@.len() != 0 ==> ({
                let c = final(self).data.collections@.last();
                &&& c.name == name
                &&& c.tasks@.len() == 0
                &&& c.filter == crate::collection::Filter::All
                &&& c.add_task_input@.len() == 0
            }),
    {
        if name.as_str().is_empty() {
            return;
        }
        let ghost before = self.data.collections@;
        self.data.collections.push(Collection::new(name));
        proof {
            assert(self.data.collections@.drop_last() =~= before);
        }
        self.update_nav_model();
    }

    /// Removes the collection that `h` resolves to, clamps the current
    /// position into the shorter list, and rebuilds the index. A handle
    /// that resolves to no collection changes nothing.
    pub fn remove_collection(&mut self, h: NavHandle)
        requires
            old(self).wf(),
        ensures
            final(self).wf(),
            final(self).show_dialog == old(self).show_dialog,
            final(self).dialog_input == old(self).dialog_input,
            match old(self).nav_model.spec_data(h) {
                Some(p) => {
                    &&& final(self).data.collections@ == old(self).data.collections@.remove(p as int)
                    &&& final(self).data.current_index == clamped(
                        old(self).data.current_index,
                        (old(self).data.collections@.len() - 1) as nat,
                    )
                },
                None => *final(self) == *old(self),
            },
    {
        match self.nav_model.data(h) {
            Some(p) => {
                proof {
                    assert(self.nav_model.entries@[h.slot as int] == NavEntry::CollectionIndex(p));
                    assert(p == h.slot - 1);
                }
                let _ = self.data.collections.remove(p);
                let n = self.data.collections.len();
                let cur = self.data.current_index;
                self.data.current_index = if n == 0 {
                    0
                } else if cur < n {
                    cur
                } else {
                    n - 1
                };
                self.update_nav_model();
            },
            None => {},
        }
    }

    /// Selects the entry that `h` stands for: a collection becomes
    /// current; the creation entry opens the dialog. A stale handle
    /// changes nothing.
    pub fn on_nav_select(&mut self, h: NavHandle)
        requires
            old(self).wf(),
        ensures
            final(self).wf(),
            final(self).data.collections == old(self).data.collections,
            final(self).nav_model == old(self).nav_model,
            final(self).dialog_input == old(self).dialog_input,
            match old(self).nav_model.spec_entry(h) {
                Some(NavEntry::CollectionIndex(p)) => {
                    &&& final(self).data.current_index == p
                    &&& final(self).show_dialog == old(self).show_dialog
                },
                Some(NavEntry::CreateNew) => {
                    &&& final(self).data.current_index == old(self).data.current_index
                    &&& final(self).show_dialog
                },
                None => *final(self) == *old(self),
            },
    {
        match self.nav_model.entry(h) {
            Some(NavEntry::CollectionIndex(p)) => {
                proof {
                    assert(self.nav_model.entries@[h.slot as int] == NavEntry::CollectionIndex(p));
                }
                self.data.current_index = p;
            },
            Some(NavEntry::CreateNew) => self.show_dialog = true,
            None => {},
        }
    }
    /// Hands `message` to the collection at `i`; a position past the end
    /// changes nothing.
    pub fn dispatch_to_collection(&mut self, i: usize, message: CollectionMessage)
        requires
            old(self).wf(),
        ensures
            final(self).wf(),
            final(self).nav_model == old(self).nav_model,
            final(self).show_dialog == old(self).show_dialog,
            final(self).dialog_input == old(self).dialog_input,
            final(self).data.current_index == old(self).data.current_index,
            i < old(self).data.collections@.len() ==> final(self).replaced_at(
                *old(self),
                i as int,
                final(self).data.collections@[i as int],
            ),
            i < old(self).data.collections@.len() ==> old(self).data.collections@[i as int].updated(
                message,
                final(self).data.collections@[i as int],
            ),
            i >= old(self).data.collections@.len() ==> *final(self) == *old(self),
    {
        if i < self.data.collections.len() {
            self.data.collections[i].update(message);
        }
    }

    /// The window title: "Todo - " and the current collection's name, or
    /// "Home" when there is no current collection.
    pub fn title(&self) -> (r: String)
        ensures
            r@ == "Todo - "@ + (if self.data.current_index < self.data.collections@.len() {
                self.data.collections@[self.data.current_index as int].name@
            } else {
                "Home"@
            }),
    {
        let prefix = String::from_str("Todo - ");
        match self.get_current_collection() {
            Some(c) => prefix.concat(c.name.as_str()),
            None => prefix.concat("Home"),
        }
    }

    /// Handles one application message.
    pub fn update(&mut self, message: Message)
        requires
            old(self).wf(),
            old(self).data.collections@.len() + 1 < usize::MAX,
        ensures
            final(self).wf(),
            match message {
                Message::CollectionMessage(i, msg) => {
                    &&& final(self).nav_model == old(self).nav_model
                    &&& final(self).show_dialog == old(self).show_dialog
                    &&& final(self).dialog_input == old(self).dialog_input
                    &&& final(self).data.current_index == old(self).data.current_index
                    &&& i < old(self).data.collections@.len() ==> {
                        &&& final(self).replaced_at(*old(self), i as int, final(self).data.collections@[i as int])
                        &&& old(self).data.collections@[i as int].updated(msg, final(self).data.collections@[i as int])
                    }
                    &&& i >= old(self).data.collections@.len() ==> *final(self) == *old(self)
                },
                Message::NewCollection => if old(self).dialog_input@.len() == 0 {
                    *final(self) == *old(self)
                } else {
                    &&& final(self).data.collections@.len() == old(self).data.collections@.len() + 1
                    &&& final(self).data.collections@.drop_last() == old(self).data.collections@
                    &&& final(self).data.collections@.last().name == old(self).dialog_input
                    &&& final(self).data.collections@.last().tasks@.len() == 0
                    &&& final(self).data.current_index == old(self).data.current_index
                    &&& !final(self).show_dialog
                    &&& final(self).dialog_input@.len() == 0
                },
                Message::RemoveCollection(h) => {
                    &&& final(self).show_dialog == old(self).show_dialog
                    &&& final(self).dialog_input == old(self).dialog_input
                    &&& match old(self).nav_model.spec_data(h) {
                        Some(p) => {
                            &&& final(self).data.collections@ == old(self).data.collections@.remove(p as int)
                            &&& final(self).data.current_index == clamped(
                                old(self).data.current_index,
                                (old(self).data.collections@.len() - 1) as nat,
                            )
                        },
                        None => *final(self) == *old(self),
                    }
                },
                Message::SelectCollection(h) => {
                    &&& final(self).data.collections == old(self).data.collections
                    &&& final(self).nav_model == old(self).nav_model
                    &&& final(self).dialog_input == old(self).dialog_input
                    &&& match old(self).nav_model.spec_entry(h) {
                        Some(NavEntry::CollectionIndex(p)) => {
                            &&& final(self).data.current_index == p
                            &&& final(self).show_dialog == old(self).show_dialog
                        },
                        Some(NavEntry::CreateNew) => {
                            &&& final(self).data.current_index == old(self).data.current_index
                            &&& final(self).show_dialog
                        },
                        None => *final(self) == *old(self),
                    }
                },
                Message::ShowDialog => {
                    &&& final(self).data == old(self).data
                    &&& final(self).nav_model == old(self).nav_model
                    &&& final(self).dialog_input == old(self).dialog_input
                    &&& final(self).show_dialog
                },
                Message::HideDialog => {
                    &&& final(self).data == old(self).data
                    &&& final(self).nav_model == old(self).nav_model
                    &&& final(self).dialog_input == old(self).dialog_input
                    &&& !final(self).show_dialog
                },
                Message::DialogInputChanged(input) => {
                    &&& final(self).data == old(self).data
                    &&& final(self).nav_model == old(self).nav_model
                    &&& final(self).dialog_input == input
                    &&& final(self).show_dialog == old(self).show_dialog
                },
                Message::Nothing => *final(self) == *old(self),
            },
    {
        match message {
            Message::CollectionMessage(i, msg) => self.dispatch_to_collection(i, msg),
            Message::NewCollection => {
                if self.dialog_input.as_str().is_empty() {
                    return;
                }
                let mut name = String::new();
                std::mem::swap(&mut name, &mut self.dialog_input);
                self.create_collection(name);
                self.show_dialog = false;
            },
            Message::RemoveCollection(h) => self.remove_collection(h),
            Message::SelectCollection(h) => self.on_nav_select(h),
            Message::ShowDialog => self.show_dialog = true,
            Message::HideDialog => self.show_dialog = false,
            Message::DialogInputChanged(input) => self.dialog_input = input,
            Message::Nothing => {},
        }
    }
}

} // verus!
