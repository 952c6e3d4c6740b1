//! Finding the entry module of an uploaded archive. The search looks at most
//! two directory levels down: it lists a directory, stops at the first path
//! that ends in `<main>.ts`, and otherwise goes on into the last path it
//! listed, which then becomes the root that modules are resolved from.
use vstd::prelude::*;

verus! {

/// Scanning one listing, with `next` the directory to go on into so far:
/// the first entry path found, if any, and the directory to go on into, the
/// last path passed over before it.
pub open spec fn scan(listing: Seq<(Seq<char>, bool)>, next: Seq<char>) -> (
    Option<Seq<char>>,
    Seq<char>,
)
    decreases listing.len(),
{
    if listing.len() == 0 {
        (None, next)
    } else if listing[0].1 {
        (Some(listing[0].0), next)
    } else {
        scan(listing.drop_first(), listing[0].0)
    }
}

/// The state of the search: the root so far, the directory to list next,
/// the entry once found, and the number of levels looked at.
pub struct EntrySearch {
    root: String,
    next: String,
    entry: Option<String>,
    rounds: usize,
}

/// The search as plain values: root, next directory, entry, levels looked at.
pub type SearchView = (Seq<char>, Seq<char>, Option<Seq<char>>, nat);

/// The search after one listing of its next directory.
pub open spec fn after_listing(v: SearchView, listing: Seq<(Seq<char>, bool)>) -> SearchView {
    let (found, next) = scan(listing, v.1);
    match found {
        Some(e) => (v.0, next, Some(e), v.3 + 1),
        None => (next, next, None, v.3 + 1),
    }
}

/// What one scan finds: the first path marked as the entry, all paths
/// before it unmarked, and as the directory to go on into the last path
/// passed over, or `next` if none was.
proof fn lemma_scan(listing: Seq<(Seq<char>, bool)>, next: Seq<char>)
    ensures
        scan(listing, next).0 matches Some(e) ==> exists|i: int|
            #![trigger listing[i]]
            0 <= i < listing.len() && listing[i] == (e, true) && (forall|j: int|
                0 <= j < i ==> !#[trigger] listing[j].1) && scan(listing, next).1 == (if i == 0 {
                next
            } else {
                listing[i - 1].0
            }),
        scan(listing, next).0 is None ==> (forall|j: int|
            0 <= j < listing.len() ==> !#[trigger] listing[j].1) && scan(listing, next).1 == (
        if listing.len() == 0 {
            next
        } else {
            listing.last().0
        }),
    decreases listing.len(),
{
    if listing.len() > 0 && !listing[0].1 {
        let rest = listing.drop_first();
        lemma_scan(rest, listing[0].0);
        if scan(rest, listing[0].0).0 is Some {
            let i = choose|i: int|
                #![trigger rest[i]]
                0 <= i < rest.len() && rest[i] == (scan(rest, listing[0].0).0->0, true) && (forall|
                    j: int,
                | 0 <= j < i ==> !#[trigger] rest[j].1) && scan(rest, listing[0].0).1 == (if i == 0 {
                    listing[0].0
                } else {
                    rest[i - 1].0
                });
            assert(listing[i + 1] == rest[i]);
            assert forall|j: int| 0 <= j < i + 1 implies !#[trigger] listing[j].1 by {
                if j > 0 {
                    assert(listing[j] == rest[j - 1]);
                }
            }
            if i > 0 {
                assert(listing[i] == rest[i - 1]);
            }
        } else {
            assert forall|j: int| 0 <= j < listing.len() implies !#[trigger] listing[j].1 by {
                if j > 0 {
                    assert(listing[j] == rest[j - 1]);
                }
            }
            if rest.len() > 0 {
                assert(rest.last() == listing.last());
            }
        }
    }
}

/// One listing of the search: the level count goes up by one; when the
/// entry is found it is the first path marked as the entry, every path
/// before it unmarked, and the root stays as it was; when none is found no
/// path was marked, and the root moves to the directory gone on into, the
/// last path listed (or stays where the listing was empty).
pub proof fn law_listing(v: SearchView, listing: Seq<(Seq<char>, bool)>)
    ensures
        after_listing(v, listing).3 == v.3 + 1,
        after_listing(v, listing).2 is Some ==> after_listing(v, listing).0 == v.0,
        after_listing(v, listing).2 matches Some(e) ==> exists|i: int|
            #![trigger listing[i]]
            0 <= i < listing.len() && listing[i] == (e, true) && forall|j: int|
                0 <= j < i ==> !#[trigger] listing[j].1,
        after_listing(v, listing).2 is None ==> forall|j: int|
            0 <= j < listing.len() ==> !#[trigger] listing[j].1,
        after_listing(v, listing).2 is None ==> after_listing(v, listing).0 == after_listing(
            v,
            listing,
        ).1,
        after_listing(v, listing).2 is None ==> after_listing(v, listing).1 == (if listing.len()
            == 0 {
            v.1
        } else {
            listing.last().0
        }),
{
    lemma_scan(listing, v.1);
}

/// The search goes on while no entry is found and fewer than two levels
/// have been looked at.
pub open spec fn searching(v: SearchView) -> bool {
    v.2 is None && v.3 < 2
}

impl View for EntrySearch {
    type V = SearchView;

    closed spec fn view(&self) -> SearchView {
        (
            self.root@,
            self.next@,
            match self.entry {
                Some(e) => Some(e@),
                None => None,
            },
            self.rounds as nat,
        )
    }
}

/// A path separator on some platform: `/` everywhere, `\\` on Windows.
pub open spec fn is_separator(c: char) -> bool {
    c == '/' || c == '\\'
}

/// Text with no separator and no drive colon: it cannot split into
/// components, nor begin a prefix, on any platform.
pub open spec fn plain_text(s: Seq<char>) -> bool {
    forall|i: int| 0 <= i < s.len() ==> !is_separator(#[trigger] s[i]) && s[i] != ':'
}

/// A single ordinary path component: plain text that is neither `.` nor
/// `..`.
pub open spec fn plain_name(s: Seq<char>) -> bool {
    s.len() > 0 && plain_text(s) && s != "."@ && s != ".."@
}

/// `t` stands somewhere in `s`.
pub open spec fn contains_text(s: Seq<char>, t: Seq<char>) -> bool {
    exists|k: int| 0 <= k && k + t.len() <= s.len() && #[trigger] s.subrange(k, k + t.len()) == t
}

/// `path` is a relative path, with no drive colon, whose text after its
/// last `/` is `name`.
pub open spec fn names_last(path: Seq<char>, name: Seq<char>) -> bool {
    &&& path.len() > name.len()
    &&& !is_separator(path[0])
    &&& forall|i: int| 0 <= i < path.len() ==> #[trigger] path[i] != ':'
    &&& path[path.len() - name.len() - 1] == '/'
    &&& path.skip(path.len() - name.len()) == name
}

/// `Path::ends_with`: whether the last components of `path` are those of
/// `child`. How a path splits into components is in part the platform's;
/// what holds everywhere is claimed: a path ends with itself; a path ends
/// with a single ordinary component only if it holds that component's text;
/// and a relative path whose text after its last `/` is that component ends
/// with it; a path with no separator or colon is at most one component, so
/// it ends with a single ordinary component exactly when it is that
/// component.
#[verifier::external_body]
fn path_ends_with(path: &str, child: &str) -> (b: bool)
    ensures
        path@ == child@ ==> b,
        plain_name(child@) && b ==> contains_text(path@, child@),
        plain_name(child@) && names_last(path@, child@) ==> b,
        plain_text(path@) && plain_name(child@) ==> (b <==> path@ == child@),
{
    std::path::Path::new(path).ends_with(child)
}

/// The extension an import resolves to: a declaration file `d.ts` when one
/// stands beside the importer, and `ts` otherwise.
pub fn module_extension(dts_exists: bool) -> (ext: String)
    ensures
        dts_exists ==> ext@ == "d.ts"@,
        !dts_exists ==> ext@ == "ts"@,
{
    if dts_exists {
        String::from_str("d.ts")
    } else {
        String::from_str("ts")
    }
}

/// The file name of the entry module of `main`.
pub fn entry_file_name(main: &str) -> (name: String)
    ensures
        name@ == main@ + ".ts"@,
{
    String::from_str(main).concat(".ts")
}

/// Whether `path` is the entry module of `main`: it ends in the entry's
/// file name, component by component. For a `main` without separators, the
/// path must hold `<main>.ts`, a relative path whose last part is
/// `<main>.ts` always counts, and a bare file name counts only if it is
/// `<main>.ts`.
pub fn is_entry(path: &str, main: &str) -> (b: bool)
    ensures
        path@ == main@ + ".ts"@ ==> b,
        plain_text(main@) && b ==> contains_text(path@, main@ + ".ts"@),
        plain_text(main@) && names_last(path@, main@ + ".ts"@) ==> b,
        plain_text(path@) && plain_text(main@) ==> (b <==> path@ == main@ + ".ts"@),
{
    let name = entry_file_name(main);
    proof {
        reveal_strlit(".ts");
        reveal_strlit(".");
        reveal_strlit("..");
        if plain_text(main@) {
            let n = main@ + ".ts"@;
            assert forall|i: int| 0 <= i < n.len() implies !is_separator(#[trigger] n[i]) && n[i]
                != ':' by {
                if i >= main@.len() {
                    assert(n[i] == ".ts"@[i - main@.len()]);
                }
            }
            assert(n.len() >= 3);
            assert(n != "."@);
            assert(n != ".."@);
        }
    }
    path_ends_with(path, name.as_str())
}

impl EntrySearch {
    /// A search from the archive's top directory, `.`.
    pub fn new() -> (s: Self)
        ensures
            s@ == ("."@, "."@, None::<Seq<char>>, 0nat),
    {
        EntrySearch {
            root: String::from_str("."),
            next: String::from_str("."),
            entry: None,
            rounds: 0,
        }
    }

    /// The directory to list next, while the search goes on.
    pub fn pending(&self) -> (d: Option<String>)
        ensures
            searching(self@) ==> (d matches Some(p) && p@ == self@.1),
            !searching(self@) ==> d is None,
    {
        if self.entry.is_none() && self.rounds < 2 {
            Some(self.next.clone())
        } else {
            None
        }
    }

    /// Takes in the listing of the pending directory: each path, and whether
    /// it is the entry module.
    pub fn feed(&mut self, listing: Vec<(String, bool)>)
        requires
            searching(old(self)@),
        ensures
            final(self)@ == after_listing(
                old(self)@,
                listing@.map_values(|p: (String, bool)| (p.0@, p.1)),
            ),
            final(self)@.2 is Some ==> final(self)@.0 == old(self)@.0,
            final(self)@.2 is None ==> final(self)@.0 == final(self)@.1,
            final(self)@.3 == old(self)@.3 + 1,
    {
        let ghost ls = listing@.map_values(|p: (String, bool)| (p.0@, p.1));
        let ghost next0 = self.next@;
        let n = listing.len();
        let mut i: usize = 0;
        let mut found: Option<String> = None;
        assert(ls.skip(0) =~= ls);
        while i < n
            invariant_except_break
                found is None,
            invariant
                n == listing@.len(),
                ls == listing@.map_values(|p: (String, bool)| (p.0@, p.1)),
                i <= n,
                self.rounds == old(self).rounds,
                self.root == old(self).root,
                self.entry == old(self).entry,
                scan(ls, next0) == scan(ls.skip(i as int), self.next@),
            ensures
                found matches Some(e) ==> scan(ls, next0) == (Some(e@), self.next@),
                found is None ==> scan(ls, next0) == (None::<Seq<char>>, self.next@),
            decreases n - i,
        {
            assert(ls.skip(i as int)[0] == ls[i as int]);
            assert(ls.skip(i as int).drop_first() =~= ls.skip(i + 1));
            if listing[i].1 {
                found = Some(listing[i].0.clone());
                break;
            } else {
                self.next = listing[i].0.clone();
            }
            i = i + 1;
        }
        proof {
            if found is None {
                assert(ls.skip(n as int) =~= Seq::<(Seq<char>, bool)>::empty());
            }
        }
        proof {
            law_listing(old(self)@, ls);
        }
        match found {
            Some(e) => {
                self.entry = Some(e);
            },
            None => {
                self.root = self.next.clone();
            },
        }
        self.rounds = self.rounds + 1;
    }

    /// The directory that modules are resolved from.
    pub fn root(&self) -> (r: String)
        ensures
            r@ == self@.0,
    {
        self.root.clone()
    }

    /// The entry module, once found.
    pub fn entry(&self) -> (e: Option<String>)
        ensures
            e is Some <==> self@.2 is Some,
            e matches Some(p) ==> self@.2 == Some(p@),
    {
        match &self.entry {
            Some(p) => Some(p.clone()),
            None => None,
        }
    }
}

/// The search ends after two levels at the latest.
pub proof fn law_search_ends(v: SearchView, first: Seq<(Seq<char>, bool)>, second: Seq<(Seq<char>, bool)>)
    requires
        v.3 == 0,
        v.2 is None,
    ensures
        !searching(after_listing(after_listing(v, first), second)) || !searching(after_listing(v, first)),
{
}

} // verus!
