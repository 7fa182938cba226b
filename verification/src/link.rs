//! The normalized description of how a dependent build links a library.

use vstd::prelude::*;
use crate::config::{copy_opt, opt_str, opt_text, own_opt};

verus! {

/// The texts of a sequence of strings, in the same order.
pub open spec fn texts(v: Seq<String>) -> Seq<Seq<char>> {
    Seq::new(v.len(), |i: int| v[i]@)
}

/// A preprocessor symbol with its optional value.
#[derive(Debug, PartialEq, Eq)]
pub struct Define {
    pub key: String,
    pub value: Option<String>,
}

/// Mathematical content of a [`Define`].
pub struct DefineView {
    pub key: Seq<char>,
    pub value: Option<Seq<char>>,
}

impl View for Define {
    type V = DefineView;

    open spec fn view(&self) -> DefineView {
        DefineView { key: self.key@, value: opt_text(self.value) }
    }
}

impl Clone for Define {
    /// An independent copy with the same content.
    fn clone(&self) -> (r: Define)
        ensures
            r@ == self@,
    {
        Define { key: self.key.clone(), value: copy_opt(&self.value) }
    }
}

impl Define {
    /// The symbol `key`, defined as `value` or without a value.
    pub fn new(key: &str, value: Option<&str>) -> (r: Define)
        ensures
            r@ == (DefineView { key: key@, value: opt_str(value) }),
    {
        Define { key: key.to_owned(), value: own_opt(value) }
    }
}

/// The contents of a sequence of defines, in the same order.
pub open spec fn define_views(v: Seq<Define>) -> Seq<DefineView> {
    Seq::new(v.len(), |i: int| v[i]@)
}

/// No key occurs twice.
pub open spec fn distinct_keys(s: Seq<DefineView>) -> bool {
    forall|i: int, j: int| 0 <= i < j < s.len() ==> s[i].key != s[j].key
}

/// The index at which `key` is defined, if it is defined at all.
pub open spec fn position(s: Seq<DefineView>, key: Seq<char>) -> Option<int>
    decreases s.len(),
{
    if s.len() == 0 {
        None
    } else {
        match position(s.drop_last(), key) {
            Some(i) => Some(i),
            None => if s.last().key == key {
                Some(s.len() - 1)
            } else {
                None
            },
        }
    }
}

/// What `key` is defined as: `None` when it is not defined, `Some(None)` when
/// it is defined without a value.
pub open spec fn lookup(s: Seq<DefineView>, key: Seq<char>) -> Option<Option<Seq<char>>> {
    match position(s, key) {
        Some(i) => Some(s[i].value),
        None => None,
    }
}

/// The defines after `d` replaced the entry of its key, or was added at the
/// end when its key was not defined.
pub open spec fn upsert(s: Seq<DefineView>, d: DefineView) -> Seq<DefineView> {
    match position(s, d.key) {
        Some(i) => s.update(i, d),
        None => s.push(d),
    }
}

/// The defines after each entry of `raw` was upserted in turn, starting from
/// `base`.
pub open spec fn upsert_all(base: Seq<DefineView>, raw: Seq<DefineView>) -> Seq<DefineView>
    decreases raw.len(),
{
    if raw.len() == 0 {
        base
    } else {
        upsert(upsert_all(base, raw.drop_last()), raw.last())
    }
}

/// `position` finds the first entry with the key, and fails only when there is
/// none.
pub proof fn lemma_position(s: Seq<DefineView>, key: Seq<char>)
    ensures
        match position(s, key) {
            Some(i) => 0 <= i < s.len() && s[i].key == key && forall|j: int|
                0 <= j < i ==> s[j].key != key,
            None => forall|j: int| 0 <= j < s.len() ==> s[j].key != key,
        },
    decreases s.len(),
{
    if s.len() > 0 {
        let p = s.drop_last();
        lemma_position(p, key);
        match position(p, key) {
            Some(i) => {
                assert(s[i] == p[i]);
                assert forall|j: int| 0 <= j < i implies s[j].key != key by {
                    assert(s[j] == p[j]);
                }
            },
            None => {
                assert forall|j: int| 0 <= j < s.len() - 1 implies s[j].key != key by {
                    assert(s[j] == p[j]);
                }
            },
        }
    }
}

/// An index that holds the key, with no earlier one that does, is the
/// position of the key.
pub proof fn lemma_position_is(s: Seq<DefineView>, key: Seq<char>, i: int)
    requires
        0 <= i < s.len(),
        s[i].key == key,
        forall|j: int| 0 <= j < i ==> s[j].key != key,
    ensures
        position(s, key) == Some(i),
{
    lemma_position(s, key);
}

/// A key that no entry holds has no position.
pub proof fn lemma_position_none(s: Seq<DefineView>, key: Seq<char>)
    requires
        forall|j: int| 0 <= j < s.len() ==> s[j].key != key,
    ensures
        position(s, key) is None,
{
    lemma_position(s, key);
}

/// Upserting keeps the keys distinct, defines the key as given and leaves
/// every other key as it was.
pub proof fn lemma_upsert(s: Seq<DefineView>, d: DefineView)
    requires
        distinct_keys(s),
    ensures
        distinct_keys(upsert(s, d)),
        lookup(upsert(s, d), d.key) == Some(d.value),
        forall|k: Seq<char>| k != d.key ==> lookup(upsert(s, d), k) == lookup(s, k),
{
    let t = upsert(s, d);
    lemma_position(s, d.key);
    let at = match position(s, d.key) {
        Some(i) => i,
        None => s.len() as int,
    };
    assert(t.len() > at && t[at] == d);
    assert forall|j: int| 0 <= j < t.len() && j != at implies t[j] == s[j] by {}
    assert(distinct_keys(t));
    lemma_position_is(t, d.key, at);
    assert forall|k: Seq<char>| k != d.key implies lookup(t, k) == lookup(s, k) by {
        lemma_position(s, k);
        match position(s, k) {
            Some(i) => {
                lemma_position_is(t, k, i);
            },
            None => {
                lemma_position_none(t, k);
            },
        }
    }
}

/// Upserting a whole sequence keeps the keys distinct.
pub proof fn lemma_upsert_all(base: Seq<DefineView>, raw: Seq<DefineView>)
    requires
        distinct_keys(base),
    ensures
        distinct_keys(upsert_all(base, raw)),
    decreases raw.len(),
{
    if raw.len() > 0 {
        lemma_upsert_all(base, raw.drop_last());
        lemma_upsert(upsert_all(base, raw.drop_last()), raw.last());
    }
}

/// The value of the last entry of `raw` that defines `key`, if any does.
pub open spec fn last_value(raw: Seq<DefineView>, key: Seq<char>) -> Option<Option<Seq<char>>>
    decreases raw.len(),
{
    if raw.len() == 0 {
        None
    } else if raw.last().key == key {
        Some(raw.last().value)
    } else {
        last_value(raw.drop_last(), key)
    }
}

/// After a whole sequence was upserted, each key is defined as its last entry
/// in that sequence says, and a key the sequence does not mention is defined
/// as before.
pub proof fn lemma_last_define_stands(base: Seq<DefineView>, raw: Seq<DefineView>, key: Seq<char>)
    requires
        distinct_keys(base),
    ensures
        lookup(upsert_all(base, raw), key) == match last_value(raw, key) {
            Some(value) => Some(value),
            None => lookup(base, key),
        },
    decreases raw.len(),
{
    if raw.len() > 0 {
        let before = upsert_all(base, raw.drop_last());
        lemma_upsert_all(base, raw.drop_last());
        lemma_upsert(before, raw.last());
        lemma_last_define_stands(base, raw.drop_last(), key);
    }
}

/// Mathematical content of a [`LibraryInfo`].
pub struct LinkView {
    /// Directories searched for headers, in order.
    pub include_dirs: Seq<Seq<char>>,
    /// Directories searched for libraries, in order.
    pub link_dirs: Seq<Seq<char>>,
    /// Names of the libraries to link, in order.
    pub libs: Seq<Seq<char>>,
    /// Preprocessor symbols, each key once.
    pub defines: Seq<DefineView>,
}

impl LinkView {
    /// The description that links nothing.
    pub open spec fn empty() -> LinkView {
        LinkView {
            include_dirs: Seq::empty(),
            link_dirs: Seq::empty(),
            libs: Seq::empty(),
            defines: Seq::empty(),
        }
    }

    /// Every define key occurs once.
    pub open spec fn wf(self) -> bool {
        distinct_keys(self.defines)
    }
}

/// How a dependent build links a resolved library.
#[derive(Debug, PartialEq, Eq)]
pub struct LibraryInfo {
    include_dirs: Vec<String>,
    link_dirs: Vec<String>,
    libs: Vec<String>,
    defines: Vec<Define>,
}

impl View for LibraryInfo {
    type V = LinkView;

    closed spec fn view(&self) -> LinkView {
        LinkView {
            include_dirs: texts(self.include_dirs@),
            link_dirs: texts(self.link_dirs@),
            libs: texts(self.libs@),
            defines: define_views(self.defines@),
        }
    }
}

/// Appends a copy of `s` to `v`.
fn push_text(v: &mut Vec<String>, s: &str)
    ensures
        texts(final(v)@) == texts(old(v)@).push(s@),
{
    v.push(s.to_owned());
    assert(texts(v@) =~= texts(old(v)@).push(s@));
}

/// Tells whether `v` holds the text of `s`.
fn holds_text(v: &Vec<String>, s: &str) -> (found: bool)
    ensures
        found == texts(v@).contains(s@),
{
    let wanted = s.to_owned();
    let mut i: usize = 0;
    while i < v.len()
        invariant
            i <= v.len(),
            wanted@ == s@,
            forall|j: int| 0 <= j < i ==> texts(v@)[j] != s@,
        decreases v.len() - i,
    {
        if v[i] == wanted {
            assert(texts(v@)[i as int] == s@);
            return true;
        }
        i += 1;
    }
    false
}

/// Copies a vector of strings.
fn copy_texts(v: &Vec<String>) -> (r: Vec<String>)
    ensures
        texts(r@) == texts(v@),
{
    let mut r: Vec<String> = Vec::new();
    let mut i: usize = 0;
    while i < v.len()
        invariant
            i <= v.len(),
            r@.len() == i,
            forall|j: int| 0 <= j < i ==> r@[j]@ == v@[j]@,
        decreases v.len() - i,
    {
        r.push(v[i].clone());
        i += 1;
    }
    assert(texts(r@) =~= texts(v@));
    r
}

/// Copies a vector of defines.
fn copy_defines(v: &Vec<Define>) -> (r: Vec<Define>)
    ensures
        define_views(r@) == define_views(v@),
{
    let mut r: Vec<Define> = Vec::new();
    let mut i: usize = 0;
    while i < v.len()
        invariant
            i <= v.len(),
            r@.len() == i,
            forall|j: int| 0 <= j < i ==> r@[j]@ == v@[j]@,
        decreases v.len() - i,
    {
        r.push(v[i].clone());
        i += 1;
    }
    assert(define_views(r@) =~= define_views(v@));
    r
}

/// Replaces the entry of `d`'s key in `v`, or adds `d` at the end when its key
/// is not defined yet.
fn put_define(v: &mut Vec<Define>, d: Define)
    requires
        distinct_keys(define_views(old(v)@)),
    ensures
        define_views(final(v)@) == upsert(define_views(old(v)@), d@),
        distinct_keys(define_views(final(v)@)),
{
    let ghost before = define_views(v@);
    let ghost dv = d@;
    let mut i: usize = 0;
    while i < v.len()
        invariant
            i <= v.len(),
            define_views(v@) == before,
            define_views(old(v)@) == before,
            distinct_keys(before),
            d@ == dv,
            forall|j: int| 0 <= j < i ==> before[j].key != dv.key,
        decreases v.len() - i,
    {
        if v[i].key == d.key {
            proof {
                assert(before[i as int].key == dv.key);
                lemma_position_is(before, dv.key, i as int);
                lemma_upsert(before, dv);
            }
            v.set(i, d);
            assert(define_views(v@) =~= before.update(i as int, dv));
            return;
        }
        i += 1;
    }
    proof {
        lemma_position_none(before, dv.key);
        lemma_upsert(before, dv);
    }
    v.push(d);
    assert(define_views(v@) =~= before.push(dv));
}

impl Clone for LibraryInfo {
    /// An independent copy with the same content.
    fn clone(&self) -> (r: LibraryInfo)
        ensures
            r@ == self@,
            r@.wf(),
    {
        proof {
            use_type_invariant(self);
        }
        LibraryInfo {
            include_dirs: copy_texts(&self.include_dirs),
            link_dirs: copy_texts(&self.link_dirs),
            libs: copy_texts(&self.libs),
            defines: copy_defines(&self.defines),
        }
    }
}

impl LibraryInfo {
    /// Every define key occurs once.
    #[verifier::type_invariant]
    closed spec fn inv(&self) -> bool {
        self@.wf()
    }

    /// The description that links nothing.
    pub fn new() -> (r: LibraryInfo)
        ensures
            r@ == LinkView::empty(),
            r@.wf(),
    {
        let r = LibraryInfo {
            include_dirs: Vec::new(),
            link_dirs: Vec::new(),
            libs: Vec::new(),
            defines: Vec::new(),
        };
        assert(r@.include_dirs =~= Seq::empty());
        assert(r@.link_dirs =~= Seq::empty());
        assert(r@.libs =~= Seq::empty());
        assert(r@.defines =~= Seq::empty());
        r
    }

    /// Adds `dir` as the last directory searched for headers.
    pub fn include_dir(self, dir: &str) -> (r: LibraryInfo)
        ensures
            r@ == (LinkView { include_dirs: self@.include_dirs.push(dir@), ..self@ }),
            r@.wf(),
    {
        proof {
            use_type_invariant(&self);
        }
        let mut include_dirs = self.include_dirs;
        push_text(&mut include_dirs, dir);
        LibraryInfo { include_dirs, ..self }
    }

    /// Adds `dir` as the last directory searched for libraries.
    pub fn link_dir(self, dir: &str) -> (r: LibraryInfo)
        ensures
            r@ == (LinkView { link_dirs: self@.link_dirs.push(dir@), ..self@ }),
            r@.wf(),
    {
        proof {
            use_type_invariant(&self);
        }
        let mut link_dirs = self.link_dirs;
        push_text(&mut link_dirs, dir);
        LibraryInfo { link_dirs, ..self }
    }

    /// Adds `name` as the last library to link.
    pub fn lib(self, name: &str) -> (r: LibraryInfo)
        ensures
            r@ == (LinkView { libs: self@.libs.push(name@), ..self@ }),
            r@.wf(),
    {
        proof {
            use_type_invariant(&self);
        }
        let mut libs = self.libs;
        push_text(&mut libs, name);
        LibraryInfo { libs, ..self }
    }

    /// Defines `key` as `value`, or without a value. A key that is already
    /// defined keeps its place and takes the new value.
    pub fn define(self, key: &str, value: Option<&str>) -> (r: LibraryInfo)
        ensures
            r@ == (LinkView {
                defines: upsert(self@.defines, DefineView { key: key@, value: opt_str(value) }),
                ..self@
            }),
            r@.wf(),
    {
        proof {
            use_type_invariant(&self);
        }
        let mut defines = self.defines;
        put_define(&mut defines, Define::new(key, value));
        LibraryInfo { defines, ..self }
    }

    /// Brings the raw findings of a probe or a backend into normal form:
    /// directories and names are kept in order, and of several defines of one
    /// key the last one stands, at the place of the first.
    pub fn from_parts(
        include_dirs: Vec<String>,
        link_dirs: Vec<String>,
        libs: Vec<String>,
        defines: Vec<Define>,
    ) -> (r: LibraryInfo)
        ensures
            r@ == (LinkView {
                include_dirs: texts(include_dirs@),
                link_dirs: texts(link_dirs@),
                libs: texts(libs@),
                defines: upsert_all(Seq::empty(), define_views(defines@)),
            }),
            r@.wf(),
    {
        let ghost raw = define_views(defines@);
        let mut unique: Vec<Define> = Vec::new();
        let mut i: usize = 0;
        assert(define_views(unique@) =~= Seq::empty());
        assert(raw.take(0) =~= Seq::empty());
        while i < defines.len()
            invariant
                i <= defines.len(),
                raw == define_views(defines@),
                distinct_keys(define_views(unique@)),
                define_views(unique@) == upsert_all(Seq::empty(), raw.take(i as int)),
            decreases defines.len() - i,
        {
            proof {
                assert(raw.take(i + 1).drop_last() =~= raw.take(i as int));
                assert(raw.take(i + 1).last() == raw[i as int]);
            }
            put_define(&mut unique, defines[i].clone());
            i += 1;
        }
        assert(raw.take(i as int) =~= raw);
        LibraryInfo { include_dirs, link_dirs, libs, defines: unique }
    }

    /// The directories searched for headers, in order.
    pub fn include_dirs(&self) -> (r: &Vec<String>)
        ensures
            texts(r@) == self@.include_dirs,
    {
        &self.include_dirs
    }

    /// The directories searched for libraries, in order.
    pub fn link_dirs(&self) -> (r: &Vec<String>)
        ensures
            texts(r@) == self@.link_dirs,
    {
        &self.link_dirs
    }

    /// The names of the libraries to link, in order.
    pub fn libs(&self) -> (r: &Vec<String>)
        ensures
            texts(r@) == self@.libs,
    {
        &self.libs
    }

    /// The preprocessor symbols, each key once.
    pub fn defines(&self) -> (r: &Vec<Define>)
        ensures
            define_views(r@) == self@.defines,
            self@.wf(),
    {
        proof {
            use_type_invariant(self);
        }
        &self.defines
    }

    /// The entry that defines `key`, if there is one.
    pub fn definition(&self, key: &str) -> (r: Option<&Define>)
        ensures
            match r {
                Some(d) => d@.key == key@ && lookup(self@.defines, key@) == Some(d@.value),
                None => lookup(self@.defines, key@) is None,
            },
    {
        let wanted = key.to_owned();
        let mut i: usize = 0;
        while i < self.defines.len()
            invariant
                i <= self.defines.len(),
                wanted@ == key@,
                forall|j: int| 0 <= j < i ==> self@.defines[j].key != key@,
            decreases self.defines.len() - i,
        {
            if self.defines[i].key == wanted {
                proof {
                    assert(self@.defines[i as int] == self.defines[i as int]@);
                    lemma_position_is(self@.defines, key@, i as int);
                }
                return Some(&self.defines[i]);
            }
            i += 1;
        }
        proof {
            lemma_position_none(self@.defines, key@);
        }
        None
    }

    /// Tells whether `name` is among the libraries to link.
    pub fn links(&self, name: &str) -> (found: bool)
        ensures
            found == self@.libs.contains(name@),
    {
        holds_text(&self.libs, name)
    }
}

} // verus!
