//! The login directory: a mapping from login name to stored login state.
//!
//! Keys are unique and entries are never removed — logging out flips the
//! `logged_in` flag, it does not delete the entry, so the directory doubles
//! as a record of every user seen since the process started. Iteration
//! order is the order of first login, which is stable because nothing is
//! ever removed.

use vstd::prelude::*;

use crate::model::{StoredLoginInfo, StoredLoginInfoView};

verus! {

/// Well-formedness of a directory value: login names are unique.
pub open spec fn dir_wf(dir: Seq<StoredLoginInfoView>) -> bool {
    forall|i: int, j: int|
        0 <= i < j < dir.len() ==> dir[i].loginname != dir[j].loginname
}

/// The entry stored under a login name: the first (and, in a well-formed
/// directory, only) entry carrying it.
pub open spec fn lookup(dir: Seq<StoredLoginInfoView>, name: Seq<char>) -> Option<
    StoredLoginInfoView,
>
    decreases dir.len(),
{
    if dir.len() == 0 {
        None
    } else if dir[0].loginname == name {
        Some(dir[0])
    } else {
        lookup(dir.drop_first(), name)
    }
}

/// The directory after logging a name in: an absent name gains a fresh
/// entry with the given role at the end; a present entry merely has its
/// `logged_in` flag set, its role untouched.
pub open spec fn spec_upsert(
    dir: Seq<StoredLoginInfoView>,
    name: Seq<char>,
    role_if_new: Seq<char>,
) -> Seq<StoredLoginInfoView>
    decreases dir.len(),
{
    if dir.len() == 0 {
        seq![StoredLoginInfoView { loginname: name, role: role_if_new, logged_in: true }]
    } else if dir[0].loginname == name {
        seq![
            StoredLoginInfoView {
                loginname: dir[0].loginname,
                role: dir[0].role,
                logged_in: true,
            },
        ] + dir.drop_first()
    } else {
        seq![dir[0]] + spec_upsert(dir.drop_first(), name, role_if_new)
    }
}

/// The directory after logging a name out: a present entry has its
/// `logged_in` flag cleared; an absent name leaves the directory unchanged.
pub open spec fn spec_set_logged_out(dir: Seq<StoredLoginInfoView>, name: Seq<char>) -> Seq<
    StoredLoginInfoView,
>
    decreases dir.len(),
{
    if dir.len() == 0 {
        dir
    } else if dir[0].loginname == name {
        seq![
            StoredLoginInfoView {
                loginname: dir[0].loginname,
                role: dir[0].role,
                logged_in: false,
            },
        ] + dir.drop_first()
    } else {
        seq![dir[0]] + spec_set_logged_out(dir.drop_first(), name)
    }
}

/// `lookup` returns the entry at the first index carrying the name.
pub proof fn lemma_lookup_at_first_match(dir: Seq<StoredLoginInfoView>, name: Seq<char>, i: int)
    requires
        0 <= i < dir.len(),
        dir[i].loginname == name,
        forall|j: int| 0 <= j < i ==> dir[j].loginname != name,
    ensures
        lookup(dir, name) == Some(dir[i]),
    decreases i,
{
    if i > 0 {
        lemma_lookup_at_first_match(dir.drop_first(), name, i - 1);
    }
}

/// `lookup` finds nothing when no entry carries the name.
pub proof fn lemma_lookup_absent(dir: Seq<StoredLoginInfoView>, name: Seq<char>)
    requires
        forall|j: int| 0 <= j < dir.len() ==> dir[j].loginname != name,
    ensures
        lookup(dir, name) is None,
    decreases dir.len(),
{
    if dir.len() > 0 {
        lemma_lookup_absent(dir.drop_first(), name);
    }
}

/// A found entry carries the looked-up name and stands in the directory.
pub proof fn lemma_lookup_is_entry(dir: Seq<StoredLoginInfoView>, name: Seq<char>)
    ensures
        lookup(dir, name) matches Some(e) ==> e.loginname == name && exists|i: int|
            0 <= i < dir.len() && dir[i] == e,
    decreases dir.len(),
{
    if dir.len() > 0 && dir[0].loginname != name {
        lemma_lookup_is_entry(dir.drop_first(), name);
        if lookup(dir, name) is Some {
            let e = lookup(dir, name)->Some_0;
            let i = choose|i: int| 0 <= i < dir.drop_first().len() && dir.drop_first()[i] == e;
            assert(dir[i + 1] == e);
        }
    }
}

/// An upsert never rewrites a name or a role: every entry of the result
/// either keeps the name and role it had at the same position, or is the
/// freshly inserted one.
pub proof fn lemma_upsert_keeps_names_and_roles(
    dir: Seq<StoredLoginInfoView>,
    name: Seq<char>,
    role_if_new: Seq<char>,
)
    ensures
        ({
            let res = spec_upsert(dir, name, role_if_new);
            &&& dir.len() <= res.len() <= dir.len() + 1
            &&& forall|k: int|
                0 <= k < res.len() ==> ((k < dir.len() && res[k].loginname == dir[k].loginname
                    && res[k].role == dir[k].role) || (res[k].loginname == name && res[k].role
                    == role_if_new))
        }),
    decreases dir.len(),
{
    if dir.len() == 0 {
    } else if dir[0].loginname == name {
    } else {
        lemma_upsert_keeps_names_and_roles(dir.drop_first(), name, role_if_new);
    }
}

/// A logout never changes a name or a role, nor the directory's length.
pub proof fn lemma_logout_keeps_names_and_roles(dir: Seq<StoredLoginInfoView>, name: Seq<char>)
    ensures
        ({
            let res = spec_set_logged_out(dir, name);
            &&& res.len() == dir.len()
            &&& forall|k: int|
                0 <= k < res.len() ==> res[k].loginname == dir[k].loginname && res[k].role
                    == dir[k].role
        }),
    decreases dir.len(),
{
    if dir.len() == 0 {
    } else if dir[0].loginname == name {
    } else {
        lemma_logout_keeps_names_and_roles(dir.drop_first(), name);
    }
}

/// When the name first occurs at index `i`, the upsert is exactly an
/// in-place update of that entry's flag.
pub proof fn lemma_upsert_updates(
    dir: Seq<StoredLoginInfoView>,
    name: Seq<char>,
    role_if_new: Seq<char>,
    i: int,
)
    requires
        0 <= i < dir.len(),
        dir[i].loginname == name,
        forall|j: int| 0 <= j < i ==> dir[j].loginname != name,
    ensures
        spec_upsert(dir, name, role_if_new) == dir.update(
            i,
            StoredLoginInfoView { loginname: dir[i].loginname, role: dir[i].role, logged_in: true },
        ),
    decreases i,
{
    if i == 0 {
        assert(spec_upsert(dir, name, role_if_new) =~= dir.update(
            0,
            StoredLoginInfoView { loginname: dir[0].loginname, role: dir[0].role, logged_in: true },
        ));
    } else {
        lemma_upsert_updates(dir.drop_first(), name, role_if_new, i - 1);
        assert(spec_upsert(dir, name, role_if_new) =~= dir.update(
            i,
            StoredLoginInfoView { loginname: dir[i].loginname, role: dir[i].role, logged_in: true },
        ));
    }
}

/// When no entry carries the name, the upsert is exactly a push of a fresh
/// logged-in entry.
pub proof fn lemma_upsert_pushes(
    dir: Seq<StoredLoginInfoView>,
    name: Seq<char>,
    role_if_new: Seq<char>,
)
    requires
        forall|j: int| 0 <= j < dir.len() ==> dir[j].loginname != name,
    ensures
        spec_upsert(dir, name, role_if_new) == dir.push(
            StoredLoginInfoView { loginname: name, role: role_if_new, logged_in: true },
        ),
    decreases dir.len(),
{
    if dir.len() == 0 {
        assert(spec_upsert(dir, name, role_if_new) =~= dir.push(
            StoredLoginInfoView { loginname: name, role: role_if_new, logged_in: true },
        ));
    } else {
        lemma_upsert_pushes(dir.drop_first(), name, role_if_new);
        assert(spec_upsert(dir, name, role_if_new) =~= dir.push(
            StoredLoginInfoView { loginname: name, role: role_if_new, logged_in: true },
        ));
    }
}

/// When the name first occurs at index `i`, logging out is exactly an
/// in-place clear of that entry's flag.
pub proof fn lemma_logout_updates(dir: Seq<StoredLoginInfoView>, name: Seq<char>, i: int)
    requires
        0 <= i < dir.len(),
        dir[i].loginname == name,
        forall|j: int| 0 <= j < i ==> dir[j].loginname != name,
    ensures
        spec_set_logged_out(dir, name) == dir.update(
            i,
            StoredLoginInfoView {
                loginname: dir[i].loginname,
                role: dir[i].role,
                logged_in: false,
            },
        ),
    decreases i,
{
    if i == 0 {
        assert(spec_set_logged_out(dir, name) =~= dir.update(
            0,
            StoredLoginInfoView {
                loginname: dir[0].loginname,
                role: dir[0].role,
                logged_in: false,
            },
        ));
    } else {
        lemma_logout_updates(dir.drop_first(), name, i - 1);
        assert(spec_set_logged_out(dir, name) =~= dir.update(
            i,
            StoredLoginInfoView {
                loginname: dir[i].loginname,
                role: dir[i].role,
                logged_in: false,
            },
        ));
    }
}

/// Logging out a name that no entry carries leaves the directory unchanged.
pub proof fn lemma_logout_absent(dir: Seq<StoredLoginInfoView>, name: Seq<char>)
    requires
        forall|j: int| 0 <= j < dir.len() ==> dir[j].loginname != name,
    ensures
        spec_set_logged_out(dir, name) == dir,
    decreases dir.len(),
{
    if dir.len() > 0 {
        lemma_logout_absent(dir.drop_first(), name);
        assert(spec_set_logged_out(dir, name) =~= dir);
    }
}

/// What an upsert leaves under the upserted name: the old entry with its
/// flag set, or a fresh entry when the name was absent.
pub proof fn lemma_lookup_upsert_same(
    dir: Seq<StoredLoginInfoView>,
    name: Seq<char>,
    role_if_new: Seq<char>,
)
    ensures
        lookup(spec_upsert(dir, name, role_if_new), name) == (match lookup(dir, name) {
            Some(e) => Some(
                StoredLoginInfoView { loginname: e.loginname, role: e.role, logged_in: true },
            ),
            None => Some(
                StoredLoginInfoView { loginname: name, role: role_if_new, logged_in: true },
            ),
        }),
    decreases dir.len(),
{
    if dir.len() == 0 {
    } else if dir[0].loginname == name {
    } else {
        lemma_lookup_upsert_same(dir.drop_first(), name, role_if_new);
        assert((seq![dir[0]] + spec_upsert(dir.drop_first(), name, role_if_new)).drop_first()
            =~= spec_upsert(dir.drop_first(), name, role_if_new));
    }
}

/// An upsert changes nothing under any other name.
pub proof fn lemma_lookup_upsert_other(
    dir: Seq<StoredLoginInfoView>,
    name: Seq<char>,
    role_if_new: Seq<char>,
    other: Seq<char>,
)
    requires
        other != name,
    ensures
        lookup(spec_upsert(dir, name, role_if_new), other) == lookup(dir, other),
    decreases dir.len(),
{
    if dir.len() == 0 {
        let fresh = StoredLoginInfoView { loginname: name, role: role_if_new, logged_in: true };
        assert(spec_upsert(dir, name, role_if_new) == seq![fresh]);
        assert(seq![fresh].drop_first() =~= Seq::<StoredLoginInfoView>::empty());
        assert(lookup(Seq::<StoredLoginInfoView>::empty(), other) is None);
        assert(lookup(seq![fresh], other) is None);
    } else if dir[0].loginname == name {
        let upd = StoredLoginInfoView {
            loginname: dir[0].loginname,
            role: dir[0].role,
            logged_in: true,
        };
        assert(spec_upsert(dir, name, role_if_new) == seq![upd] + dir.drop_first());
        assert((seq![upd] + dir.drop_first())[0] == upd);
        assert((seq![upd] + dir.drop_first()).drop_first() =~= dir.drop_first());
        assert(lookup(seq![upd] + dir.drop_first(), other) == lookup(dir.drop_first(), other));
        assert(lookup(dir, other) == lookup(dir.drop_first(), other));
    } else {
        lemma_lookup_upsert_other(dir.drop_first(), name, role_if_new, other);
        assert((seq![dir[0]] + spec_upsert(dir.drop_first(), name, role_if_new)).drop_first()
            =~= spec_upsert(dir.drop_first(), name, role_if_new));
    }
}

/// What a logout leaves under the logged-out name: the old entry with its
/// flag cleared, or nothing when the name was absent.
pub proof fn lemma_lookup_logout_same(dir: Seq<StoredLoginInfoView>, name: Seq<char>)
    ensures
        lookup(spec_set_logged_out(dir, name), name) == (match lookup(dir, name) {
            Some(e) => Some(
                StoredLoginInfoView { loginname: e.loginname, role: e.role, logged_in: false },
            ),
            None => None::<StoredLoginInfoView>,
        }),
    decreases dir.len(),
{
    if dir.len() == 0 {
    } else if dir[0].loginname == name {
    } else {
        lemma_lookup_logout_same(dir.drop_first(), name);
        assert((seq![dir[0]] + spec_set_logged_out(dir.drop_first(), name)).drop_first()
            =~= spec_set_logged_out(dir.drop_first(), name));
    }
}

/// A logout changes nothing under any other name.
pub proof fn lemma_lookup_logout_other(
    dir: Seq<StoredLoginInfoView>,
    name: Seq<char>,
    other: Seq<char>,
)
    requires
        other != name,
    ensures
        lookup(spec_set_logged_out(dir, name), other) == lookup(dir, other),
    decreases dir.len(),
{
    if dir.len() == 0 {
    } else if dir[0].loginname == name {
        assert((seq![
            StoredLoginInfoView {
                loginname: dir[0].loginname,
                role: dir[0].role,
                logged_in: false,
            },
        ] + dir.drop_first()).drop_first() =~= dir.drop_first());
    } else {
        lemma_lookup_logout_other(dir.drop_first(), name, other);
        assert((seq![dir[0]] + spec_set_logged_out(dir.drop_first(), name)).drop_first()
            =~= spec_set_logged_out(dir.drop_first(), name));
    }
}

/// Law: no transition returns a name to "absent" — once a name has an
/// entry, it keeps one through every later login and logout, whichever
/// name those concern.
pub proof fn lemma_entries_persist(dir: Seq<StoredLoginInfoView>, name: Seq<char>, other: Seq<char>, role_if_new: Seq<char>)
    requires
        lookup(dir, name) is Some,
    ensures
        lookup(spec_upsert(dir, other, role_if_new), name) is Some,
        lookup(spec_set_logged_out(dir, other), name) is Some,
{
    if other == name {
        lemma_lookup_upsert_same(dir, other, role_if_new);
        lemma_lookup_logout_same(dir, other);
    } else {
        lemma_lookup_upsert_other(dir, other, role_if_new, name);
        lemma_lookup_logout_other(dir, other, name);
    }
}

/// Law: logging out is idempotent — a second logout of the same name leaves
/// the directory exactly as the first did.
pub proof fn lemma_logout_idempotent(dir: Seq<StoredLoginInfoView>, name: Seq<char>)
    ensures
        spec_set_logged_out(spec_set_logged_out(dir, name), name) == spec_set_logged_out(dir, name),
    decreases dir.len(),
{
    if dir.len() == 0 {
    } else if dir[0].loginname == name {
        assert(spec_set_logged_out(spec_set_logged_out(dir, name), name) =~= spec_set_logged_out(
            dir,
            name,
        ));
    } else {
        lemma_logout_idempotent(dir.drop_first(), name);
        assert((seq![dir[0]] + spec_set_logged_out(dir.drop_first(), name)).drop_first()
            =~= spec_set_logged_out(dir.drop_first(), name));
        assert(spec_set_logged_out(spec_set_logged_out(dir, name), name) =~= spec_set_logged_out(
            dir,
            name,
        ));
    }
}

/// Law: a role is assigned at first login and never recomputed — logging a
/// known name in again, whatever role a fresh entry would get, keeps the
/// role the entry already carries.
pub proof fn lemma_role_persists(
    dir: Seq<StoredLoginInfoView>,
    name: Seq<char>,
    role_if_new: Seq<char>,
)
    requires
        lookup(dir, name) is Some,
    ensures
        lookup(spec_upsert(dir, name, role_if_new), name) matches Some(e) && e.role == lookup(
            dir,
            name,
        )->Some_0.role,
{
    lemma_lookup_upsert_same(dir, name, role_if_new);
}

/// Law: the role survives a whole login–logout–login round, even when the
/// second login would assign a different role to a fresh entry.
pub proof fn lemma_role_persistence_across_logout(
    dir: Seq<StoredLoginInfoView>,
    name: Seq<char>,
    role_first: Seq<char>,
    role_second: Seq<char>,
)
    requires
        lookup(dir, name) is None,
    ensures
        ({
            let after_first = spec_upsert(dir, name, role_first);
            let after_logout = spec_set_logged_out(after_first, name);
            let after_second = spec_upsert(after_logout, name, role_second);
            lookup(after_second, name) == Some(
                StoredLoginInfoView { loginname: name, role: role_first, logged_in: true },
            )
        }),
{
    lemma_lookup_upsert_same(dir, name, role_first);
    lemma_lookup_logout_same(spec_upsert(dir, name, role_first), name);
    lemma_lookup_upsert_same(
        spec_set_logged_out(spec_upsert(dir, name, role_first), name),
        name,
        role_second,
    );
}

/// The login directory itself: entries in order of first login.
pub struct Directory {
    entries: Vec<StoredLoginInfo>,
}

impl View for Directory {
    type V = Seq<StoredLoginInfoView>;

    closed spec fn view(&self) -> Seq<StoredLoginInfoView> {
        Seq::new(self.entries@.len(), |i: int| self.entries@[i]@)
    }
}

impl Directory {
    /// An empty directory; the process starts with one.
    pub fn new() -> (r: Self)
        ensures
            r@ == Seq::<StoredLoginInfoView>::empty(),
    {
        let d = Directory { entries: Vec::new() };
        proof {
            assert(d@ =~= Seq::<StoredLoginInfoView>::empty());
        }
        d
    }

    /// The index of the first entry carrying the name, if any.
    fn index_of(&self, loginname: &String) -> (r: Option<usize>)
        ensures
            match r {
                Some(i) => i < self@.len() && self@[i as int].loginname == loginname@ && (forall|
                    j: int,
                |
                    0 <= j < i ==> self@[j].loginname != loginname@),
                None => forall|j: int| 0 <= j < self@.len() ==> self@[j].loginname != loginname@,
            },
    {
        let mut i: usize = 0;
        while i < self.entries.len()
            invariant
                i <= self.entries.len(),
                forall|j: int| 0 <= j < i ==> self@[j].loginname != loginname@,
            decreases self.entries.len() - i,
        {
            if self.entries[i].loginname == *loginname {
                return Some(i);
            }
            i = i + 1;
        }
        None
    }

    /// Logs a name in: inserts a fresh logged-in entry with the given role
    /// when the name is new, else sets the existing entry's flag, leaving
    /// its role untouched. No entry is ever removed.
    pub fn upsert_logged_in(&mut self, loginname: String, role_if_new: String)
        requires
            dir_wf(old(self)@),
        ensures
            final(self)@ == spec_upsert(old(self)@, loginname@, role_if_new@),
            dir_wf(final(self)@),
    {
        let ghost dir0 = self@;
        match self.index_of(&loginname) {
            Some(i) => {
                let ghost e = self@[i as int];
                self.entries[i].logged_in = true;
                proof {
                    lemma_upsert_updates(dir0, loginname@, role_if_new@, i as int);
                    assert(self@ =~= dir0.update(
                        i as int,
                        StoredLoginInfoView {
                            loginname: e.loginname,
                            role: e.role,
                            logged_in: true,
                        },
                    ));
                }
            },
            None => {
                self.entries.push(
                    StoredLoginInfo { loginname, role: role_if_new, logged_in: true },
                );
                proof {
                    lemma_upsert_pushes(dir0, loginname@, role_if_new@);
                    assert(self@ =~= spec_upsert(dir0, loginname@, role_if_new@));
                }
            },
        }
    }

    /// Logs a name out: clears the entry's flag when present, does nothing
    /// when absent.
    pub fn set_logged_out(&mut self, loginname: &String)
        requires
            dir_wf(old(self)@),
        ensures
            final(self)@ == spec_set_logged_out(old(self)@, loginname@),
            dir_wf(final(self)@),
    {
        let ghost dir0 = self@;
        match self.index_of(loginname) {
            Some(i) => {
                let ghost e = self@[i as int];
                self.entries[i].logged_in = false;
                proof {
                    lemma_logout_updates(dir0, loginname@, i as int);
                    assert(self@ =~= dir0.update(
                        i as int,
                        StoredLoginInfoView {
                            loginname: e.loginname,
                            role: e.role,
                            logged_in: false,
                        },
                    ));
                }
            },
            None => {
                proof {
                    lemma_logout_absent(dir0, loginname@);
                }
            },
        }
    }

    /// A read-only snapshot of the entry stored under a name.
    pub fn get(&self, loginname: &String) -> (r: Option<StoredLoginInfo>)
        ensures
            match r {
                Some(e) => lookup(self@, loginname@) == Some(e@),
                None => lookup(self@, loginname@) is None,
            },
    {
        match self.index_of(loginname) {
            Some(i) => {
                proof {
                    lemma_lookup_at_first_match(self@, loginname@, i as int);
                }
                Some(self.entries[i].clone())
            },
            None => {
                proof {
                    lemma_lookup_absent(self@, loginname@);
                }
                None
            },
        }
    }

    /// A snapshot of all entries, in order of first login.
    pub fn list(&self) -> (r: Vec<StoredLoginInfo>)
        ensures
            r@.len() == self@.len(),
            forall|i: int| 0 <= i < r@.len() ==> r@[i]@ == self@[i],
    {
        let mut out: Vec<StoredLoginInfo> = Vec::new();
        let mut i: usize = 0;
        while i < self.entries.len()
            invariant
                i <= self.entries.len(),
                out@.len() == i,
                forall|j: int| 0 <= j < i ==> out@[j]@ == self@[j],
            decreases self.entries.len() - i,
        {
            out.push(self.entries[i].clone());
            i = i + 1;
        }
        out
    }

    /// A snapshot of the entry at a position in the listing order.
    pub fn get_at(&self, index: usize) -> (r: Option<StoredLoginInfo>)
        ensures
            match r {
                Some(e) => index < self@.len() && e@ == self@[index as int],
                None => index >= self@.len(),
            },
    {
        if index < self.entries.len() {
            Some(self.entries[index].clone())
        } else {
            None
        }
    }

    /// How many names have been seen since the process started.
    pub fn len(&self) -> (r: usize)
        ensures
            r == self@.len(),
    {
        self.entries.len()
    }
}

} // verus!
