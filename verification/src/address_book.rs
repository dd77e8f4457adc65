//! The address book: saved addresses with optional labels, searched by a
//! text that may occur in the address or the label, and the checks made
//! before an address is saved.
use vstd::prelude::*;
use crate::text::{concat, contains_seq, contains_str, has_prefix, lowercase, occurs_at, starts_with, to_lowercase, trim, trimmed};

verus! {

/// A saved address.
#[derive(Debug, Clone)]
pub struct AddressEntry {
    pub address: String,
    pub label: Option<String>,
    /// When it was last used, in seconds since the Unix epoch.
    pub last_used: i64,
}

impl AddressEntry {
    /// A copy of this entry.
    pub fn duplicate(&self) -> (e: Self)
        ensures
            e == *self,
    {
        AddressEntry {
            address: self.address.clone(),
            label: match &self.label {
                Some(l) => Some(l.clone()),
                None => None,
            },
            last_used: self.last_used,
        }
    }
}

/// An entry is found by a (lowercased) search text when its address or its
/// label, lowercased, contains it.
pub open spec fn entry_found(e: AddressEntry, needle: Seq<char>) -> bool {
    contains_seq(lowercase(e.address@), needle) || (e.label matches Some(l) && contains_seq(
        lowercase(l@),
        needle,
    ))
}

/// The entries shown for a search text: all for an empty text, else those
/// found by the lowercased text, in their order.
pub open spec fn address_search(entries: Seq<AddressEntry>, search: Seq<char>) -> Seq<AddressEntry> {
    if search.len() == 0 {
        entries
    } else {
        entries.filter(|e: AddressEntry| entry_found(e, lowercase(search)))
    }
}

/// Searching by a non-empty text finds every entry whose label, lowercased,
/// holds the lowercased text anywhere (not only at its start), as it does
/// for the address.
pub proof fn lemma_search_finds_inside_label(entries: Seq<AddressEntry>, search: Seq<char>, i: int, at: int)
    requires
        search.len() > 0,
        0 <= i < entries.len(),
        entries[i].label is Some,
        0 <= at,
        at + lowercase(search).len() <= lowercase(entries[i].label->Some_0@).len(),
        lowercase(entries[i].label->Some_0@).subrange(at, at + lowercase(search).len()) == lowercase(search),
    ensures
        address_search(entries, search).contains(entries[i]),
{
    let pred = |e: AddressEntry| entry_found(e, lowercase(search));
    assert(occurs_at(lowercase(entries[i].label->Some_0@), lowercase(search), at));
    assert(pred(entries[i]));
    entries.lemma_filter_contains(pred, i);
}

/// Searching by a non-empty text finds every entry whose address,
/// lowercased, holds the lowercased text anywhere.
pub proof fn lemma_search_finds_inside_address(entries: Seq<AddressEntry>, search: Seq<char>, i: int, at: int)
    requires
        search.len() > 0,
        0 <= i < entries.len(),
        0 <= at,
        at + lowercase(search).len() <= lowercase(entries[i].address@).len(),
        lowercase(entries[i].address@).subrange(at, at + lowercase(search).len()) == lowercase(search),
    ensures
        address_search(entries, search).contains(entries[i]),
{
    let pred = |e: AddressEntry| entry_found(e, lowercase(search));
    assert(occurs_at(lowercase(entries[i].address@), lowercase(search), at));
    assert(pred(entries[i]));
    entries.lemma_filter_contains(pred, i);
}

/// The beginnings accepted for an address: mainnet (`bc1`, `1`, `3`),
/// testnet (`tb1`) and regtest (`bcrt1`).
pub open spec fn known_address_prefix(a: Seq<char>) -> bool {
    has_prefix(a, "bc1"@) || has_prefix(a, "1"@) || has_prefix(a, "3"@) || has_prefix(a, "tb1"@)
        || has_prefix(a, "bcrt1"@)
}

/// A label as saved: none when blank, else trimmed.
pub open spec fn saved_label(label: Seq<char>) -> Option<Seq<char>> {
    if trim(label).len() == 0 {
        None
    } else {
        Some(trim(label))
    }
}

/// Text of an optional string.
pub open spec fn opt_view(o: Option<String>) -> Option<Seq<char>> {
    match o {
        Some(s) => Some(s@),
        None => None,
    }
}

/// A label as saved: none when blank, else trimmed.
pub fn label_to_save(label: &str) -> (r: Option<String>)
    ensures
        opt_view(r) == saved_label(label@),
{
    let t = trimmed(label);
    if t.unicode_len() == 0 {
        None
    } else {
        Some(t)
    }
}

fn entry_matches(e: &AddressEntry, needle: &str) -> (b: bool)
    ensures
        b == entry_found(*e, needle@),
{
    let a = to_lowercase(e.address.as_str());
    if contains_str(a.as_str(), needle) {
        return true;
    }
    match &e.label {
        Some(l) => {
            let ll = to_lowercase(l.as_str());
            contains_str(ll.as_str(), needle)
        },
        None => false,
    }
}

/// The entries found by a search text.
pub fn filter_entries(entries: &Vec<AddressEntry>, search: &str) -> (r: Vec<AddressEntry>)
    ensures
        r@ == address_search(entries@, search@),
{
    let mut r: Vec<AddressEntry> = Vec::new();
    if search.unicode_len() == 0 {
        let mut i: usize = 0;
        while i < entries.len()
            invariant
                i <= entries@.len(),
                r@ == entries@.subrange(0, i as int),
            decreases entries@.len() - i,
        {
            r.push(entries[i].duplicate());
            i = i + 1;
            assert(r@ =~= entries@.subrange(0, i as int));
        }
        assert(entries@.subrange(0, entries@.len() as int) =~= entries@);
        return r;
    }
    let needle = to_lowercase(search);
    let ghost pred = |e: AddressEntry| entry_found(e, lowercase(search@));
    assert(entries@.subrange(0, 0).filter(pred) =~= Seq::<AddressEntry>::empty()) by {
        reveal(Seq::filter);
    }
    let mut i: usize = 0;
    while i < entries.len()
        invariant
            i <= entries@.len(),
            needle@ == lowercase(search@),
            pred == (|e: AddressEntry| entry_found(e, lowercase(search@))),
            r@ == entries@.subrange(0, i as int).filter(pred),
        decreases entries@.len() - i,
    {
        let e = &entries[i];
        proof {
            entries@.subrange(0, i as int).lemma_filter_push(*e, pred);
            assert(entries@.subrange(0, i + 1) =~= entries@.subrange(0, i as int).push(*e));
        }
        if entry_matches(e, needle.as_str()) {
            r.push(e.duplicate());
        }
        i = i + 1;
    }
    assert(entries@.subrange(0, entries@.len() as int) =~= entries@);
    r
}

/// The dialog that adds an address.
pub struct AddressEntryState {
    address: String,
    label: String,
    error: Option<String>,
}

/// What checking an address before it is saved finds wrong, if anything.
pub open spec fn new_address_error(address: Seq<char>) -> Option<Seq<char>> {
    let a = trim(address);
    if a.len() == 0 {
        Some("Address cannot be empty"@)
    } else if !known_address_prefix(a) {
        Some("Invalid Bitcoin address format"@)
    } else {
        None
    }
}

impl AddressEntryState {
    pub closed spec fn address_text(&self) -> Seq<char> {
        self.address@
    }

    pub closed spec fn label_text(&self) -> Seq<char> {
        self.label@
    }

    pub closed spec fn error_text(&self) -> Option<Seq<char>> {
        opt_view(self.error)
    }

    /// An empty dialog.
    pub fn new() -> (s: Self)
        ensures
            s.address_text() == Seq::<char>::empty(),
            s.label_text() == Seq::<char>::empty(),
            s.error_text() is None,
    {
        AddressEntryState { address: String::new(), label: String::new(), error: None }
    }

    /// The dialog with an address filled in.
    pub fn with_address(address: String) -> (s: Self)
        ensures
            s.address_text() == address@,
            s.label_text() == Seq::<char>::empty(),
            s.error_text() is None,
    {
        AddressEntryState { address, label: String::new(), error: None }
    }

    pub fn address(&self) -> (a: &str)
        ensures
            a@ == self.address_text(),
    {
        self.address.as_str()
    }

    pub fn label(&self) -> (l: &str)
        ensures
            l@ == self.label_text(),
    {
        self.label.as_str()
    }

    pub fn error(&self) -> (e: Option<&String>)
        ensures
            match e {
                Some(s) => self.error_text() == Some(s@),
                None => self.error_text() is None,
            },
    {
        match &self.error {
            Some(s) => Some(s),
            None => None,
        }
    }

    /// "Save": checks the address typed. When it may be saved, the answer
    /// is the trimmed address and the label to save with it; otherwise the
    /// error says what is wrong.
    pub fn prepare_save(&mut self, address: &str, label: &str) -> (r: Option<(String, Option<String>)>)
        ensures
            match new_address_error(address@) {
                Some(m) => r is None && final(self).error_text() == Some(m),
                None => r matches Some((a, l)) && a@ == trim(address@) && opt_view(l) == saved_label(label@)
                    && final(self).error_text() == old(self).error_text(),
            },
            final(self).address_text() == old(self).address_text(),
            final(self).label_text() == old(self).label_text(),
    {
        let a = trimmed(address);
        if a.unicode_len() == 0 {
            self.error = Some(String::from_str("Address cannot be empty"));
            return None;
        }
        let known = starts_with(a.as_str(), "bc1") || starts_with(a.as_str(), "1") || starts_with(
            a.as_str(),
            "3",
        ) || starts_with(a.as_str(), "tb1") || starts_with(a.as_str(), "bcrt1");
        if !known {
            self.error = Some(String::from_str("Invalid Bitcoin address format"));
            return None;
        }
        Some((a, label_to_save(label)))
    }

    /// What came of saving: on success the dialog keeps the address saved and
    /// the label typed; on failure the error is shown. The answer is whether
    /// it was saved.
    pub fn finish_save(&mut self, saved: Result<(), String>, address: String, label: String) -> (ok: bool)
        ensures
            ok == saved is Ok,
            saved is Ok ==> final(self).address_text() == address@ && final(self).label_text() == label@
                && final(self).error_text() == old(self).error_text(),
            saved matches Err(e) ==> final(self).error_text() == Some("Failed to save: "@ + e@)
                && final(self).address_text() == old(self).address_text() && final(self).label_text()
                == old(self).label_text(),
    {
        match saved {
            Ok(()) => {
                self.address = address;
                self.label = label;
                true
            },
            Err(e) => {
                self.error = Some(concat("Failed to save: ", e.as_str()));
                false
            },
        }
    }
}

/// State of the address book screen.
pub struct AddressBookState {
    addresses: Vec<AddressEntry>,
    is_loading: bool,
    error: Option<String>,
    search_text: String,
    selected_index: Option<usize>,
    edit_dialog: Option<usize>,
    edit_label: String,
}

impl AddressBookState {
    pub closed spec fn entries(&self) -> Seq<AddressEntry> {
        self.addresses@
    }

    pub closed spec fn loading(&self) -> bool {
        self.is_loading
    }

    pub closed spec fn error_text(&self) -> Option<Seq<char>> {
        opt_view(self.error)
    }

    pub closed spec fn search(&self) -> Seq<char> {
        self.search_text@
    }

    pub closed spec fn selected(&self) -> Option<usize> {
        self.selected_index
    }

    pub closed spec fn editing(&self) -> Option<usize> {
        self.edit_dialog
    }

    pub closed spec fn edit_text(&self) -> Seq<char> {
        self.edit_label@
    }

    /// Nothing loaded, nothing searched, selected or edited.
    pub fn new() -> (s: Self)
        ensures
            s.entries().len() == 0,
            !s.loading(),
            s.error_text() is None,
            s.search().len() == 0,
            s.selected() is None,
            s.editing() is None,
            s.edit_text().len() == 0,
    {
        AddressBookState {
            addresses: Vec::new(),
            is_loading: false,
            error: None,
            search_text: String::new(),
            selected_index: None,
            edit_dialog: None,
            edit_label: String::new(),
        }
    }

    /// Whether the addresses should be loaded (none yet, none loading).
    pub fn needs_load(&self) -> (b: bool)
        ensures
            b == (self.entries().len() == 0 && !self.loading()),
    {
        self.addresses.len() == 0 && !self.is_loading
    }

    /// The addresses of the vault, as loaded from storage: they replace
    /// those shown; a failure to load is shown as an error.
    pub fn refresh(&mut self, loaded: Result<Vec<AddressEntry>, String>)
        ensures
            !final(self).loading(),
            match loaded {
                Ok(v) => final(self).entries() == v@ && final(self).error_text() is None,
                Err(e) => final(self).entries() == old(self).entries() && final(self).error_text() == Some(
                    "Failed to load addresses: "@ + e@,
                ),
            },
            final(self).search() == old(self).search(),
            final(self).selected() == old(self).selected(),
            final(self).editing() == old(self).editing(),
            final(self).edit_text() == old(self).edit_text(),
    {
        self.is_loading = true;
        self.error = None;
        match loaded {
            Ok(v) => {
                self.addresses = v;
                self.is_loading = false;
            },
            Err(e) => {
                self.error = Some(concat("Failed to load addresses: ", e.as_str()));
                self.is_loading = false;
            },
        }
    }

    /// The entries shown for the search text.
    pub fn filtered_addresses(&self) -> (v: Vec<AddressEntry>)
        ensures
            v@ == address_search(self.entries(), self.search()),
    {
        filter_entries(&self.addresses, self.search_text.as_str())
    }

    /// The search text typed.
    pub fn set_search_text(&mut self, text: String)
        ensures
            final(self).search() == text@,
            final(self).entries() == old(self).entries(),
            final(self).selected() == old(self).selected(),
            final(self).editing() == old(self).editing(),
    {
        self.search_text = text;
    }

    /// "Clear": no search text.
    pub fn clear_search(&mut self)
        ensures
            final(self).search().len() == 0,
            final(self).entries() == old(self).entries(),
            final(self).selected() == old(self).selected(),
            final(self).editing() == old(self).editing(),
    {
        self.search_text = String::new();
    }

    /// Selects the `index`-th entry shown.
    pub fn select(&mut self, index: usize)
        ensures
            final(self).selected() == Some(index),
            final(self).entries() == old(self).entries(),
            final(self).search() == old(self).search(),
    {
        self.selected_index = Some(index);
    }

    /// "Edit" on the `index`-th entry shown: its label (or nothing) is put in
    /// the edit field.
    pub fn start_edit(&mut self, index: usize, label: &Option<String>)
        ensures
            final(self).editing() == Some(index),
            final(self).edit_text() == (match label {
                Some(l) => l@,
                None => Seq::<char>::empty(),
            }),
            final(self).entries() == old(self).entries(),
            final(self).search() == old(self).search(),
    {
        self.edit_dialog = Some(index);
        self.edit_label = match label {
            Some(l) => l.clone(),
            None => String::new(),
        };
    }

    /// The label typed in the edit field.
    pub fn set_edit_label(&mut self, text: String)
        ensures
            final(self).edit_text() == text@,
            final(self).editing() == old(self).editing(),
            final(self).entries() == old(self).entries(),
    {
        self.edit_label = text;
    }

    /// The label to save from the edit field: none when blank, else trimmed.
    pub fn edited_label(&self) -> (r: Option<String>)
        ensures
            opt_view(r) == saved_label(self.edit_text()),
    {
        label_to_save(self.edit_label.as_str())
    }

    /// "Cancel" in the edit dialog.
    pub fn cancel_edit(&mut self)
        ensures
            final(self).editing() is None,
            final(self).edit_text().len() == 0,
            final(self).entries() == old(self).entries(),
            final(self).error_text() == old(self).error_text(),
    {
        self.edit_dialog = None;
        self.edit_label = String::new();
    }

    /// What came of saving the edited label: on success the addresses are
    /// reloaded (`reloaded`) and the dialog closes; on failure the error is
    /// shown and the dialog stays.
    pub fn finish_edit(&mut self, updated: Result<(), String>, reloaded: Result<Vec<AddressEntry>, String>)
        ensures
            updated matches Err(e) ==> final(self).error_text() == Some("Failed to update: "@ + e@)
                && final(self).editing() == old(self).editing() && final(self).entries() == old(self).entries(),
            updated is Ok ==> final(self).editing() is None && final(self).edit_text().len() == 0 && match reloaded {
                Ok(v) => final(self).entries() == v@ && final(self).error_text() is None,
                Err(e) => final(self).entries() == old(self).entries() && final(self).error_text() == Some(
                    "Failed to load addresses: "@ + e@,
                ),
            },
    {
        match updated {
            Ok(()) => {
                self.refresh(reloaded);
                self.edit_dialog = None;
                self.edit_label = String::new();
            },
            Err(e) => {
                self.error = Some(concat("Failed to update: ", e.as_str()));
            },
        }
    }

    /// What came of deleting an address: on success the addresses are
    /// reloaded (`reloaded`), on failure the error is shown.
    pub fn finish_delete(&mut self, deleted: Result<(), String>, reloaded: Result<Vec<AddressEntry>, String>)
        ensures
            deleted matches Err(e) ==> final(self).error_text() == Some("Failed to delete: "@ + e@)
                && final(self).entries() == old(self).entries(),
            deleted is Ok ==> match reloaded {
                Ok(v) => final(self).entries() == v@ && final(self).error_text() is None,
                Err(e) => final(self).entries() == old(self).entries() && final(self).error_text() == Some(
                    "Failed to load addresses: "@ + e@,
                ),
            },
            final(self).editing() == old(self).editing(),
    {
        match deleted {
            Ok(()) => {
                self.refresh(reloaded);
            },
            Err(e) => {
                self.error = Some(concat("Failed to delete: ", e.as_str()));
            },
        }
    }
}

} // verus!
