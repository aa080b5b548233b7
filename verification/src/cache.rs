//! The cross-boundary value memoization layer.
//!
//! Materializing a host-runtime value for a segment is expensive and
//! repetition is common (shared styles, repeated strings, repeated
//! colors), so each kind of internal value is converted at most once per
//! distinct structural key. The materializer keeps one memo table per
//! kind, mapping the structural key to the handle of the already-built
//! host value, and an append-only construction log: one build
//! instruction per handle, in construction order, each referring only to
//! handles built before it. The host side replays the log to construct
//! its native values; a handle, once bound to a key, never changes, so
//! identical structural input always yields the same materialized value.
use vstd::prelude::*;

use crate::options::{MarkdownOptions, DEFAULT_HEIGHT_MULTIPLIER_PERMILLE};
use crate::segment::{TextSegment, TextSegmentV};
use crate::style::{clone_strings, FontStyle, Rgba, TextStyle, TextStyleV};

verus! {

/// A memo-table key: a value whose structural equality is decidable and
/// agrees with equality of its mathematical model.
pub trait MemoKey: DeepView + Sized {
    /// Structural equality of two keys.
    fn key_eq(&self, other: &Self) -> (r: bool)
        ensures
            r == (self.deep_view() == other.deep_view()),
    ;
}

impl MemoKey for String {
    fn key_eq(&self, other: &Self) -> (r: bool)
        ensures
            r == (self.deep_view() == other.deep_view()),
    {
        self.eq(other)
    }
}

impl MemoKey for Rgba {
    fn key_eq(&self, other: &Self) -> (r: bool)
        ensures
            r == (self.deep_view() == other.deep_view()),
    {
        *self == *other
    }
}

impl MemoKey for FontStyle {
    fn key_eq(&self, other: &Self) -> (r: bool)
        ensures
            r == (self.deep_view() == other.deep_view()),
    {
        *self == *other
    }
}

/// Structural equality of two font-family lists.
fn eq_strings(a: &Vec<String>, b: &Vec<String>) -> (r: bool)
    ensures
        r == (a.deep_view() == b.deep_view()),
{
    if a.len() != b.len() {
        proof {
            assert(a.deep_view().len() != b.deep_view().len());
        }
        return false;
    }
    let n = a.len();
    for i in 0..n
        invariant
            n == a@.len(),
            n == b@.len(),
            forall|k: int| 0 <= k < i ==> a.deep_view()[k] == b.deep_view()[k],
    {
        if !a[i].eq(&b[i]) {
            proof {
                assert(a.deep_view()[i as int] != b.deep_view()[i as int]);
            }
            return false;
        }
    }
    proof {
        assert(a.deep_view() =~= b.deep_view());
    }
    true
}

impl MemoKey for Vec<String> {
    fn key_eq(&self, other: &Self) -> (r: bool)
        ensures
            r == (self.deep_view() == other.deep_view()),
    {
        eq_strings(self, other)
    }
}

impl MemoKey for TextStyle {
    fn key_eq(&self, other: &Self) -> (r: bool)
        ensures
            r == (self.deep_view() == other.deep_view()),
    {
        let size_eq = match (self.font_size, other.font_size) {
            (Some(a), Some(b)) => a == b,
            (None, None) => true,
            _ => false,
        };
        let fs_eq = match (self.font_style, other.font_style) {
            (Some(a), Some(b)) => a == b,
            (None, None) => true,
            _ => false,
        };
        let deco_eq = match (self.decoration, other.decoration) {
            (Some(a), Some(b)) => a == b,
            (None, None) => true,
            _ => false,
        };
        let fam_eq = match (&self.font_families, &other.font_families) {
            (Some(a), Some(b)) => eq_strings(a, b),
            (None, None) => true,
            _ => false,
        };
        let color_eq = match (self.color, other.color) {
            (Some(a), Some(b)) => a == b,
            (None, None) => true,
            _ => false,
        };
        let r = size_eq && fs_eq && deco_eq && fam_eq && color_eq;
        proof {
            if r {
                assert(self.deep_view() =~~= other.deep_view());
            }
        }
        r
    }
}

/// The memo table as a mapping from structural key to handle.
pub open spec fn spec_table_map<K: DeepView>(entries: Seq<(K, usize)>) -> Map<K::V, usize>
    decreases entries.len(),
{
    if entries.len() == 0 {
        Map::empty()
    } else {
        spec_table_map(entries.drop_last()).insert(
            entries.last().0.deep_view(),
            entries.last().1,
        )
    }
}

/// No two entries share a structural key.
pub open spec fn spec_keys_unique<K: DeepView>(entries: Seq<(K, usize)>) -> bool {
    forall|i: int, j: int|
        0 <= i < j < entries.len() ==> (#[trigger] entries[i]).0.deep_view() != (
        #[trigger] entries[j]).0.deep_view()
}

/// Each entry of the table is in the map, with its handle.
pub proof fn lemma_table_map_index<K: DeepView>(entries: Seq<(K, usize)>, i: int)
    requires
        spec_keys_unique(entries),
        0 <= i < entries.len(),
    ensures
        spec_table_map(entries).contains_key(entries[i].0.deep_view()),
        spec_table_map(entries)[entries[i].0.deep_view()] == entries[i].1,
    decreases entries.len(),
{
    if i < entries.len() - 1 {
        assert(spec_keys_unique(entries.drop_last())) by {
            assert(forall|x: int, y: int|
                0 <= x < y < entries.len() - 1 ==> entries.drop_last()[x] == entries[x]
                    && entries.drop_last()[y] == entries[y]);
        }
        lemma_table_map_index(entries.drop_last(), i);
        assert(entries.drop_last()[i] == entries[i]);
        assert(entries[i].0.deep_view() != entries.last().0.deep_view());
    }
}

/// A key that no entry carries is not in the map.
pub proof fn lemma_table_map_absent<K: DeepView>(entries: Seq<(K, usize)>, k: K::V)
    requires
        forall|i: int| 0 <= i < entries.len() ==> (#[trigger] entries[i]).0.deep_view() != k,
    ensures
        !spec_table_map(entries).contains_key(k),
    decreases entries.len(),
{
    if entries.len() > 0 {
        assert(forall|i: int|
            0 <= i < entries.len() - 1 ==> (#[trigger] entries.drop_last()[i]) == entries[i]);
        lemma_table_map_absent(entries.drop_last(), k);
    }
}

/// One memo table: a list of (key, handle) pairs with pairwise distinct
/// keys, looked up by structural equality.
pub struct MemoTable<K> {
    pub entries: Vec<(K, usize)>,
}

impl<K: MemoKey> MemoTable<K> {
    /// The table as a mapping from structural key to handle.
    pub open spec fn map_view(&self) -> Map<K::V, usize> {
        spec_table_map(self.entries@)
    }

    /// Well-formed: no two entries share a key.
    pub open spec fn wf(&self) -> bool {
        spec_keys_unique(self.entries@)
    }

    /// The empty table.
    pub fn new() -> (r: Self)
        ensures
            r.wf(),
            r.map_view() == Map::<K::V, usize>::empty(),
    {
        let r = MemoTable { entries: Vec::new() };
        proof {
            assert(r.entries@.len() == 0);
        }
        r
    }

    /// The handle the key is memoized under, if any.
    pub fn lookup(&self, key: &K) -> (r: Option<usize>)
        requires
            self.wf(),
        ensures
            match r {
                Some(id) => self.map_view().contains_key(key.deep_view())
                    && self.map_view()[key.deep_view()] == id,
                None => !self.map_view().contains_key(key.deep_view()),
            },
    {
        let n = self.entries.len();
        for i in 0..n
            invariant
                self.wf(),
                n == self.entries@.len(),
                forall|j: int|
                    0 <= j < i ==> (#[trigger] self.entries@[j]).0.deep_view()
                        != key.deep_view(),
        {
            if self.entries[i].0.key_eq(key) {
                proof {
                    lemma_table_map_index(self.entries@, i as int);
                }
                return Some(self.entries[i].1);
            }
        }
        proof {
            lemma_table_map_absent(self.entries@, key.deep_view());
        }
        None
    }

    /// Memoize a new key under the given handle.
    pub fn insert(&mut self, key: K, id: usize)
        requires
            old(self).wf(),
            !old(self).map_view().contains_key(key.deep_view()),
        ensures
            final(self).wf(),
            final(self).map_view() == old(self).map_view().insert(key.deep_view(), id),
    {
        proof {
            if exists|i: int|
                0 <= i < self.entries@.len() && (#[trigger] self.entries@[i]).0.deep_view()
                    == key.deep_view() {
                let i = choose|i: int|
                    0 <= i < self.entries@.len() && (#[trigger] self.entries@[i]).0.deep_view()
                        == key.deep_view();
                lemma_table_map_index(self.entries@, i);
                assert(false);
            }
        }
        let ghost prev = self.entries@;
        self.entries.push((key, id));
        proof {
            assert(self.entries@.drop_last() =~= prev);
            assert(forall|i: int|
                0 <= i < prev.len() ==> (#[trigger] self.entries@[i]) == prev[i]);
        }
    }
}


/// One host-value build instruction: what the host side constructs for a
/// handle. Handles refer to earlier log entries only, so replaying the
/// log in order never observes a missing or partially constructed value.
pub enum HostValue {
    /// A native string value.
    Str(String),
    /// A canonical property-name identifier.
    PropName(String),
    /// A 4-component color array (each component scaled to 0..1 by the
    /// host).
    Color(Rgba),
    /// A font-style object carrying the three numeric codes.
    FontStyleObj { weight: u16, width: u16, slant: u16 },
    /// An array of already-built strings, by handle.
    FamilyList(Vec<usize>),
    /// A style object; absent fields are left off the host object.
    StyleObj {
        font_size: Option<u64>,
        font_style: Option<usize>,
        decoration: Option<u8>,
        font_families: Option<usize>,
        color: Option<usize>,
        height_multiplier: Option<u64>,
    },
    /// A segment object: content and optional href by string handle, the
    /// style by style handle.
    SegmentObj { content: usize, href: Option<usize>, style: usize },
}

/// Mathematical model of a [`HostValue`].
#[verifier::ext_equal]
pub ghost enum HostValueV {
    Str(Seq<char>),
    PropName(Seq<char>),
    Color(Rgba),
    FontStyleObj { weight: u16, width: u16, slant: u16 },
    FamilyList(Seq<usize>),
    StyleObj {
        font_size: Option<u64>,
        font_style: Option<usize>,
        decoration: Option<u8>,
        font_families: Option<usize>,
        color: Option<usize>,
        height_multiplier: Option<u64>,
    },
    SegmentObj { content: usize, href: Option<usize>, style: usize },
}

impl View for HostValue {
    type V = HostValueV;

    open spec fn view(&self) -> HostValueV {
        match self {
            HostValue::Str(s) => HostValueV::Str(s@),
            HostValue::PropName(s) => HostValueV::PropName(s@),
            HostValue::Color(c) => HostValueV::Color(*c),
            HostValue::FontStyleObj { weight, width, slant } => HostValueV::FontStyleObj {
                weight: *weight,
                width: *width,
                slant: *slant,
            },
            HostValue::FamilyList(ids) => HostValueV::FamilyList(ids@),
            HostValue::StyleObj {
                font_size,
                font_style,
                decoration,
                font_families,
                color,
                height_multiplier,
            } => HostValueV::StyleObj {
                font_size: *font_size,
                font_style: *font_style,
                decoration: *decoration,
                font_families: *font_families,
                color: *color,
                height_multiplier: *height_multiplier,
            },
            HostValue::SegmentObj { content, href, style } => HostValueV::SegmentObj {
                content: *content,
                href: *href,
                style: *style,
            },
        }
    }
}

impl DeepView for HostValue {
    type V = HostValueV;

    open spec fn deep_view(&self) -> HostValueV {
        self.view()
    }
}

/// Every handle the instruction refers to is below the bound: an entry
/// at index `i` of the log may refer only to entries before it.
pub open spec fn spec_refs_below(hv: HostValueV, bound: int) -> bool {
    match hv {
        HostValueV::Str(_) => true,
        HostValueV::PropName(_) => true,
        HostValueV::Color(_) => true,
        HostValueV::FontStyleObj { .. } => true,
        HostValueV::FamilyList(ids) => forall|j: int| 0 <= j < ids.len() ==> (#[trigger] ids[j]) < bound,
        HostValueV::StyleObj { font_style, font_families, color, .. } => {
            &&& (font_style matches Some(id) ==> id < bound)
            &&& (font_families matches Some(id) ==> id < bound)
            &&& (color matches Some(id) ==> id < bound)
        },
        HostValueV::SegmentObj { content, href, style } => {
            &&& content < bound
            &&& (href matches Some(id) ==> id < bound)
            &&& style < bound
        },
    }
}

/// Handle `id` is a built string with this content.
pub open spec fn spec_str_at(log: Seq<HostValueV>, id: usize, s: Seq<char>) -> bool {
    id < log.len() && log[id as int] == HostValueV::Str(s)
}

/// Handle `id` is a built property name with this name.
pub open spec fn spec_prop_name_at(log: Seq<HostValueV>, id: usize, s: Seq<char>) -> bool {
    id < log.len() && log[id as int] == HostValueV::PropName(s)
}

/// Handle `id` is a built color with this value.
pub open spec fn spec_color_at(log: Seq<HostValueV>, id: usize, c: Rgba) -> bool {
    id < log.len() && log[id as int] == HostValueV::Color(c)
}

/// Handle `id` is a built font-style object carrying the codes of `fs`.
pub open spec fn spec_font_style_at(log: Seq<HostValueV>, id: usize, fs: FontStyle) -> bool {
    id < log.len() && log[id as int] == (HostValueV::FontStyleObj {
        weight: fs.weight.spec_code(),
        width: fs.width.spec_code(),
        slant: fs.slant.spec_code(),
    })
}

/// Handle `id` is a built family list whose members are the built
/// strings of `fams`, in order.
pub open spec fn spec_family_list_at(log: Seq<HostValueV>, id: usize, fams: Seq<Seq<char>>) -> bool {
    &&& id < log.len()
    &&& log[id as int] matches HostValueV::FamilyList(ids) && ids.len() == fams.len() && (forall|
        j: int,
    | 0 <= j < fams.len() ==> spec_str_at(log, #[trigger] ids[j], fams[j]))
}

/// Handle `id` is a built style object for the style `sv`: each field is
/// present exactly when the style sets it, and refers to the built value
/// of the field.
pub open spec fn spec_style_at(log: Seq<HostValueV>, id: usize, sv: TextStyleV) -> bool {
    &&& id < log.len()
    &&& log[id as int] matches HostValueV::StyleObj {
        font_size,
        font_style,
        decoration,
        font_families,
        color,
        height_multiplier: _,
    } && {
        &&& font_size == sv.font_size
        &&& decoration == (match sv.decoration {
            Some(d) => Some(d.spec_code()),
            None => None::<u8>,
        })
        &&& (match (font_style, sv.font_style) {
            (Some(fid), Some(fs)) => spec_font_style_at(log, fid, fs),
            (None, None) => true,
            _ => false,
        })
        &&& (match (font_families, sv.font_families) {
            (Some(gid), Some(fams)) => spec_family_list_at(log, gid, fams),
            (None, None) => true,
            _ => false,
        })
        &&& (match (color, sv.color) {
            (Some(cid), Some(c)) => spec_color_at(log, cid, c),
            (None, None) => true,
            _ => false,
        })
    }
}

/// Handle `id` is a built segment object for the segment `seg`.
pub open spec fn spec_segment_at(log: Seq<HostValueV>, id: usize, seg: TextSegmentV) -> bool {
    &&& id < log.len()
    &&& log[id as int] matches HostValueV::SegmentObj { content, href, style } && {
        &&& spec_str_at(log, content, seg.content)
        &&& (match (href, seg.href) {
            (Some(hid), Some(h)) => spec_str_at(log, hid, h),
            (None, None) => true,
            _ => false,
        })
        &&& spec_style_at(log, style, seg.style)
    }
}


/// `log2` extends `log1`: everything built stays built, unchanged.
pub open spec fn spec_log_extends(log1: Seq<HostValueV>, log2: Seq<HostValueV>) -> bool {
    log1.len() <= log2.len() && forall|i: int| 0 <= i < log1.len() ==> log1[i] == #[trigger] log2[i]
}

pub proof fn lemma_str_at_extends(
    log1: Seq<HostValueV>,
    log2: Seq<HostValueV>,
    id: usize,
    s: Seq<char>,
)
    requires
        spec_log_extends(log1, log2),
        spec_str_at(log1, id, s),
    ensures
        spec_str_at(log2, id, s),
{
}

pub proof fn lemma_prop_name_at_extends(
    log1: Seq<HostValueV>,
    log2: Seq<HostValueV>,
    id: usize,
    s: Seq<char>,
)
    requires
        spec_log_extends(log1, log2),
        spec_prop_name_at(log1, id, s),
    ensures
        spec_prop_name_at(log2, id, s),
{
}

pub proof fn lemma_color_at_extends(
    log1: Seq<HostValueV>,
    log2: Seq<HostValueV>,
    id: usize,
    c: Rgba,
)
    requires
        spec_log_extends(log1, log2),
        spec_color_at(log1, id, c),
    ensures
        spec_color_at(log2, id, c),
{
}

pub proof fn lemma_font_style_at_extends(
    log1: Seq<HostValueV>,
    log2: Seq<HostValueV>,
    id: usize,
    fs: FontStyle,
)
    requires
        spec_log_extends(log1, log2),
        spec_font_style_at(log1, id, fs),
    ensures
        spec_font_style_at(log2, id, fs),
{
}

pub proof fn lemma_family_list_at_extends(
    log1: Seq<HostValueV>,
    log2: Seq<HostValueV>,
    id: usize,
    fams: Seq<Seq<char>>,
)
    requires
        spec_log_extends(log1, log2),
        spec_family_list_at(log1, id, fams),
    ensures
        spec_family_list_at(log2, id, fams),
{
    match log1[id as int] {
        HostValueV::FamilyList(ids) => {
            assert forall|j: int| 0 <= j < fams.len() implies spec_str_at(
                log2,
                #[trigger] ids[j],
                fams[j],
            ) by {
                lemma_str_at_extends(log1, log2, ids[j], fams[j]);
            }
        },
        _ => {},
    }
}

pub proof fn lemma_style_at_extends(
    log1: Seq<HostValueV>,
    log2: Seq<HostValueV>,
    id: usize,
    sv: TextStyleV,
)
    requires
        spec_log_extends(log1, log2),
        spec_style_at(log1, id, sv),
    ensures
        spec_style_at(log2, id, sv),
{
    match log1[id as int] {
        HostValueV::StyleObj { font_style, font_families, color, .. } => {
            match (font_style, sv.font_style) {
                (Some(fid), Some(fs)) => lemma_font_style_at_extends(log1, log2, fid, fs),
                _ => {},
            }
            match (font_families, sv.font_families) {
                (Some(gid), Some(fams)) => lemma_family_list_at_extends(log1, log2, gid, fams),
                _ => {},
            }
            match (color, sv.color) {
                (Some(cid), Some(c)) => lemma_color_at_extends(log1, log2, cid, c),
                _ => {},
            }
        },
        _ => {},
    }
}

pub proof fn lemma_segment_at_extends(
    log1: Seq<HostValueV>,
    log2: Seq<HostValueV>,
    id: usize,
    seg: TextSegmentV,
)
    requires
        spec_log_extends(log1, log2),
        spec_segment_at(log1, id, seg),
    ensures
        spec_segment_at(log2, id, seg),
{
    match log1[id as int] {
        HostValueV::SegmentObj { content, href, style } => {
            lemma_str_at_extends(log1, log2, content, seg.content);
            match (href, seg.href) {
                (Some(hid), Some(h)) => lemma_str_at_extends(log1, log2, hid, h),
                _ => {},
            }
            lemma_style_at_extends(log1, log2, style, seg.style);
        },
        _ => {},
    }
}

/// The materializer: one memo table per kind of internal value, and the
/// append-only construction log. Tables are never evicted or shrunk;
/// they persist for the lifetime of the owning runtime instance. All
/// host-value construction for one call must be serialized by the host
/// (the tables are shared state); this type only decides what to build
/// and what to reuse.
pub struct Materializer {
    pub log: Vec<HostValue>,
    pub strings: MemoTable<String>,
    pub prop_names: MemoTable<String>,
    pub colors: MemoTable<Rgba>,
    pub font_styles: MemoTable<FontStyle>,
    pub families: MemoTable<Vec<String>>,
    pub styles: MemoTable<TextStyle>,
}

impl Materializer {
    /// The construction log as a sequence of build instructions.
    pub open spec fn log_view(&self) -> Seq<HostValueV> {
        self.log.deep_view()
    }

    /// Well-formed: every memoized handle points at the built value of
    /// its key (a lookup never observes a partially constructed entry),
    /// and every instruction refers only to instructions before it (the
    /// population order has no cycles).
    pub open spec fn wf(&self) -> bool {
        &&& self.strings.wf() && self.prop_names.wf() && self.colors.wf()
            && self.font_styles.wf() && self.families.wf() && self.styles.wf()
        &&& forall|k: Seq<char>| #[trigger] self.strings.map_view().contains_key(k)
            ==> spec_str_at(self.log_view(), self.strings.map_view()[k], k)
        &&& forall|k: Seq<char>| #[trigger] self.prop_names.map_view().contains_key(k)
            ==> spec_prop_name_at(self.log_view(), self.prop_names.map_view()[k], k)
        &&& forall|k: Rgba| #[trigger] self.colors.map_view().contains_key(k) ==> spec_color_at(
            self.log_view(),
            self.colors.map_view()[k],
            k,
        )
        &&& forall|k: FontStyle| #[trigger] self.font_styles.map_view().contains_key(k)
            ==> spec_font_style_at(self.log_view(), self.font_styles.map_view()[k], k)
        &&& forall|k: Seq<Seq<char>>| #[trigger] self.families.map_view().contains_key(k)
            ==> spec_family_list_at(self.log_view(), self.families.map_view()[k], k)
        &&& forall|k: TextStyleV| #[trigger] self.styles.map_view().contains_key(k)
            ==> spec_style_at(self.log_view(), self.styles.map_view()[k], k)
        &&& forall|i: int| 0 <= i < self.log_view().len() ==> spec_refs_below(
            #[trigger] self.log_view()[i],
            i,
        )
    }

    /// `post` extends `pre`: the log is preserved as a prefix and every
    /// memo table keeps all its bindings.
    pub open spec fn spec_extends(pre: Materializer, post: Materializer) -> bool {
        &&& spec_log_extends(pre.log_view(), post.log_view())
        &&& pre.strings.map_view().submap_of(post.strings.map_view())
        &&& pre.prop_names.map_view().submap_of(post.prop_names.map_view())
        &&& pre.colors.map_view().submap_of(post.colors.map_view())
        &&& pre.font_styles.map_view().submap_of(post.font_styles.map_view())
        &&& pre.families.map_view().submap_of(post.families.map_view())
        &&& pre.styles.map_view().submap_of(post.styles.map_view())
    }

    /// The empty materializer: nothing built, nothing memoized.
    pub fn new() -> (r: Self)
        ensures
            r.wf(),
            r.log_view() == Seq::<HostValueV>::empty(),
            r.strings.map_view() == Map::<Seq<char>, usize>::empty(),
            r.prop_names.map_view() == Map::<Seq<char>, usize>::empty(),
            r.colors.map_view() == Map::<Rgba, usize>::empty(),
            r.font_styles.map_view() == Map::<FontStyle, usize>::empty(),
            r.families.map_view() == Map::<Seq<Seq<char>>, usize>::empty(),
            r.styles.map_view() == Map::<TextStyleV, usize>::empty(),
    {
        let r = Materializer {
            log: Vec::new(),
            strings: MemoTable::new(),
            prop_names: MemoTable::new(),
            colors: MemoTable::new(),
            font_styles: MemoTable::new(),
            families: MemoTable::new(),
            styles: MemoTable::new(),
        };
        proof {
            assert(r.log.deep_view() =~= Seq::<HostValueV>::empty());
        }
        r
    }

    /// Materialize a plain string: reuse the built value when the same
    /// content was materialized before, build it exactly once otherwise.
    pub fn intern_string(&mut self, s: &String) -> (r: usize)
        requires
            old(self).wf(),
        ensures
            final(self).wf(),
            Materializer::spec_extends(*old(self), *final(self)),
            spec_str_at(final(self).log_view(), r, s@),
            final(self).strings.map_view().contains_key(s@),
            final(self).strings.map_view()[s@] == r,
            old(self).strings.map_view().contains_key(s@) ==> *final(self) == *old(self) && r
                == old(self).strings.map_view()[s@],
            final(self).prop_names == old(self).prop_names,
            final(self).colors == old(self).colors,
            final(self).font_styles == old(self).font_styles,
            final(self).families == old(self).families,
            final(self).styles == old(self).styles,
    {
        match self.strings.lookup(s) {
            Some(id) => id,
            None => {
                let id = self.log.len();
                let ghost old_log = self.log_view();
                self.log.push(HostValue::Str(s.clone()));
                proof {
                    assert(self.log_view() =~= old_log.push(HostValueV::Str(s@)));
                }
                self.strings.insert(s.clone(), id);
                proof {
                    self.lemma_wf_after_leaf_push(*old(self), id, HostValueV::Str(s@));
                }
                id
            },
        }
    }

    /// Everything except the strings table is as in `pre`, the log
    /// gained exactly the one instruction `hv` at index `id`, and the
    /// strings table gained at most the binding for that instruction.
    proof fn lemma_wf_after_leaf_push(&self, pre: Materializer, id: usize, hv: HostValueV)
        requires
            pre.wf(),
            id == pre.log_view().len(),
            self.log_view() == pre.log_view().push(hv),
            spec_refs_below(hv, id as int),
            self.prop_names == pre.prop_names,
            self.colors == pre.colors,
            self.font_styles == pre.font_styles,
            self.families == pre.families,
            self.styles == pre.styles,
            self.strings.wf(),
            forall|k: Seq<char>| #[trigger] self.strings.map_view().contains_key(k) ==> (
            pre.strings.map_view().contains_key(k) && self.strings.map_view()[k]
                == pre.strings.map_view()[k]) || (self.strings.map_view()[k] == id && hv
                == HostValueV::Str(k)),
            pre.strings.map_view().submap_of(self.strings.map_view()),
        ensures
            self.wf(),
            Materializer::spec_extends(pre, *self),
    {
        assert(spec_log_extends(pre.log_view(), self.log_view()));
        assert forall|k: Seq<char>| #[trigger] self.strings.map_view().contains_key(k) implies
            spec_str_at(self.log_view(), self.strings.map_view()[k], k) by {
            if pre.strings.map_view().contains_key(k) && self.strings.map_view()[k]
                == pre.strings.map_view()[k] {
                lemma_str_at_extends(
                    pre.log_view(),
                    self.log_view(),
                    pre.strings.map_view()[k],
                    k,
                );
            }
        }
        assert forall|k: Seq<char>| #[trigger] self.prop_names.map_view().contains_key(k) implies
            spec_prop_name_at(self.log_view(), self.prop_names.map_view()[k], k) by {
            lemma_prop_name_at_extends(
                pre.log_view(),
                self.log_view(),
                pre.prop_names.map_view()[k],
                k,
            );
        }
        assert forall|k: Rgba| #[trigger] self.colors.map_view().contains_key(k) implies
            spec_color_at(self.log_view(), self.colors.map_view()[k], k) by {
            lemma_color_at_extends(pre.log_view(), self.log_view(), pre.colors.map_view()[k], k);
        }
        assert forall|k: FontStyle| #[trigger] self.font_styles.map_view().contains_key(k) implies
            spec_font_style_at(self.log_view(), self.font_styles.map_view()[k], k) by {
            lemma_font_style_at_extends(
                pre.log_view(),
                self.log_view(),
                pre.font_styles.map_view()[k],
                k,
            );
        }
        assert forall|k: Seq<Seq<char>>| #[trigger] self.families.map_view().contains_key(k)
            implies spec_family_list_at(self.log_view(), self.families.map_view()[k], k) by {
            lemma_family_list_at_extends(
                pre.log_view(),
                self.log_view(),
                pre.families.map_view()[k],
                k,
            );
        }
        assert forall|k: TextStyleV| #[trigger] self.styles.map_view().contains_key(k) implies
            spec_style_at(self.log_view(), self.styles.map_view()[k], k) by {
            lemma_style_at_extends(pre.log_view(), self.log_view(), pre.styles.map_view()[k], k);
        }
        assert forall|i: int| 0 <= i < self.log_view().len() implies spec_refs_below(
            #[trigger] self.log_view()[i],
            i,
        ) by {
            if i < pre.log_view().len() {
                assert(spec_refs_below(pre.log_view()[i], i));
            }
        }
    }
}

/// Memoization stability: a handle, once bound to a structural key,
/// stays bound to it through any later materialization work, so
/// identical structural keys are materialized reference-identically
/// across calls.
pub proof fn lemma_handle_stable<KV>(m1: Map<KV, usize>, m2: Map<KV, usize>, key: KV, id: usize)
    requires
        m1.submap_of(m2),
        m1.contains_key(key),
        m1[key] == id,
    ensures
        m2.contains_key(key),
        m2[key] == id,
{
    assert(m1.dom().contains(key));
    assert(m2.dom().contains(key) && m1[key] == m2[key]) by {
        reveal(vstd::prelude::Map::submap_of);
    }
}


impl Materializer {
    /// Well-formedness carries over to an extended materializer: every
    /// binding is either inherited (the log keeps what was built) or
    /// points at a correctly built new entry, and every new instruction
    /// refers only backwards.
    proof fn lemma_wf_extends(&self, pre: Materializer)
        requires
            pre.wf(),
            spec_log_extends(pre.log_view(), self.log_view()),
            self.strings.wf() && self.prop_names.wf() && self.colors.wf()
                && self.font_styles.wf() && self.families.wf() && self.styles.wf(),
            pre.strings.map_view().submap_of(self.strings.map_view()),
            pre.prop_names.map_view().submap_of(self.prop_names.map_view()),
            pre.colors.map_view().submap_of(self.colors.map_view()),
            pre.font_styles.map_view().submap_of(self.font_styles.map_view()),
            pre.families.map_view().submap_of(self.families.map_view()),
            pre.styles.map_view().submap_of(self.styles.map_view()),
            forall|k: Seq<char>| #[trigger] self.strings.map_view().contains_key(k) ==> (
            pre.strings.map_view().contains_key(k) && self.strings.map_view()[k]
                == pre.strings.map_view()[k]) || spec_str_at(
                self.log_view(),
                self.strings.map_view()[k],
                k,
            ),
            forall|k: Seq<char>| #[trigger] self.prop_names.map_view().contains_key(k) ==> (
            pre.prop_names.map_view().contains_key(k) && self.prop_names.map_view()[k]
                == pre.prop_names.map_view()[k]) || spec_prop_name_at(
                self.log_view(),
                self.prop_names.map_view()[k],
                k,
            ),
            forall|k: Rgba| #[trigger] self.colors.map_view().contains_key(k) ==> (
            pre.colors.map_view().contains_key(k) && self.colors.map_view()[k]
                == pre.colors.map_view()[k]) || spec_color_at(
                self.log_view(),
                self.colors.map_view()[k],
                k,
            ),
            forall|k: FontStyle| #[trigger] self.font_styles.map_view().contains_key(k) ==> (
            pre.font_styles.map_view().contains_key(k) && self.font_styles.map_view()[k]
                == pre.font_styles.map_view()[k]) || spec_font_style_at(
                self.log_view(),
                self.font_styles.map_view()[k],
                k,
            ),
            forall|k: Seq<Seq<char>>| #[trigger] self.families.map_view().contains_key(k) ==> (
            pre.families.map_view().contains_key(k) && self.families.map_view()[k]
                == pre.families.map_view()[k]) || spec_family_list_at(
                self.log_view(),
                self.families.map_view()[k],
                k,
            ),
            forall|k: TextStyleV| #[trigger] self.styles.map_view().contains_key(k) ==> (
            pre.styles.map_view().contains_key(k) && self.styles.map_view()[k]
                == pre.styles.map_view()[k]) || spec_style_at(
                self.log_view(),
                self.styles.map_view()[k],
                k,
            ),
            forall|i: int|
                pre.log_view().len() <= i < self.log_view().len() ==> spec_refs_below(
                    #[trigger] self.log_view()[i],
                    i,
                ),
        ensures
            self.wf(),
            Materializer::spec_extends(pre, *self),
    {
        assert forall|k: Seq<char>| #[trigger] self.strings.map_view().contains_key(k) implies
            spec_str_at(self.log_view(), self.strings.map_view()[k], k) by {
            if pre.strings.map_view().contains_key(k) && self.strings.map_view()[k]
                == pre.strings.map_view()[k] {
                lemma_str_at_extends(
                    pre.log_view(),
                    self.log_view(),
                    pre.strings.map_view()[k],
                    k,
                );
            }
        }
        assert forall|k: Seq<char>| #[trigger] self.prop_names.map_view().contains_key(k) implies
            spec_prop_name_at(self.log_view(), self.prop_names.map_view()[k], k) by {
            if pre.prop_names.map_view().contains_key(k) && self.prop_names.map_view()[k]
                == pre.prop_names.map_view()[k] {
                lemma_prop_name_at_extends(
                    pre.log_view(),
                    self.log_view(),
                    pre.prop_names.map_view()[k],
                    k,
                );
            }
        }
        assert forall|k: Rgba| #[trigger] self.colors.map_view().contains_key(k) implies
            spec_color_at(self.log_view(), self.colors.map_view()[k], k) by {
            if pre.colors.map_view().contains_key(k) && self.colors.map_view()[k]
                == pre.colors.map_view()[k] {
                lemma_color_at_extends(
                    pre.log_view(),
                    self.log_view(),
                    pre.colors.map_view()[k],
                    k,
                );
            }
        }
        assert forall|k: FontStyle| #[trigger] self.font_styles.map_view().contains_key(k) implies
            spec_font_style_at(self.log_view(), self.font_styles.map_view()[k], k) by {
            if pre.font_styles.map_view().contains_key(k) && self.font_styles.map_view()[k]
                == pre.font_styles.map_view()[k] {
                lemma_font_style_at_extends(
                    pre.log_view(),
                    self.log_view(),
                    pre.font_styles.map_view()[k],
                    k,
                );
            }
        }
        assert forall|k: Seq<Seq<char>>| #[trigger] self.families.map_view().contains_key(k)
            implies spec_family_list_at(self.log_view(), self.families.map_view()[k], k) by {
            if pre.families.map_view().contains_key(k) && self.families.map_view()[k]
                == pre.families.map_view()[k] {
                lemma_family_list_at_extends(
                    pre.log_view(),
                    self.log_view(),
                    pre.families.map_view()[k],
                    k,
                );
            }
        }
        assert forall|k: TextStyleV| #[trigger] self.styles.map_view().contains_key(k) implies
            spec_style_at(self.log_view(), self.styles.map_view()[k], k) by {
            if pre.styles.map_view().contains_key(k) && self.styles.map_view()[k]
                == pre.styles.map_view()[k] {
                lemma_style_at_extends(
                    pre.log_view(),
                    self.log_view(),
                    pre.styles.map_view()[k],
                    k,
                );
            }
        }
        assert forall|i: int| 0 <= i < self.log_view().len() implies spec_refs_below(
            #[trigger] self.log_view()[i],
            i,
        ) by {
            if i < pre.log_view().len() {
                assert(spec_refs_below(pre.log_view()[i], i));
                assert(self.log_view()[i] == pre.log_view()[i]);
            }
        }
    }

    /// Extension is transitive.
    pub proof fn lemma_extends_trans(a: Materializer, b: Materializer, c: Materializer)
        requires
            Materializer::spec_extends(a, b),
            Materializer::spec_extends(b, c),
        ensures
            Materializer::spec_extends(a, c),
    {
        assert forall|i: int| 0 <= i < a.log_view().len() implies a.log_view()[i] == #[trigger] c.log_view()[i] by {
            assert(a.log_view()[i] == b.log_view()[i]);
        }
        broadcast use vstd::map_lib::lemma_submap_of_trans;

        assert(a.strings.map_view().submap_of(c.strings.map_view()));
        assert(a.prop_names.map_view().submap_of(c.prop_names.map_view()));
        assert(a.colors.map_view().submap_of(c.colors.map_view()));
        assert(a.font_styles.map_view().submap_of(c.font_styles.map_view()));
        assert(a.families.map_view().submap_of(c.families.map_view()));
        assert(a.styles.map_view().submap_of(c.styles.map_view()));
    }

    /// Materialize a canonical property-name identifier.
    pub fn intern_prop_name(&mut self, name: &str) -> (r: usize)
        requires
            old(self).wf(),
        ensures
            final(self).wf(),
            Materializer::spec_extends(*old(self), *final(self)),
            spec_prop_name_at(final(self).log_view(), r, name@),
            final(self).prop_names.map_view().contains_key(name@),
            final(self).prop_names.map_view()[name@] == r,
            old(self).prop_names.map_view().contains_key(name@) ==> *final(self) == *old(self)
                && r == old(self).prop_names.map_view()[name@],
            final(self).strings == old(self).strings,
            final(self).colors == old(self).colors,
            final(self).font_styles == old(self).font_styles,
            final(self).families == old(self).families,
            final(self).styles == old(self).styles,
    {
        let key = String::from_str(name);
        match self.prop_names.lookup(&key) {
            Some(id) => id,
            None => {
                let id = self.log.len();
                let ghost old_log = self.log_view();
                self.log.push(HostValue::PropName(String::from_str(name)));
                proof {
                    assert(self.log_view() =~= old_log.push(HostValueV::PropName(name@)));
                }
                self.prop_names.insert(key, id);
                proof {
                    self.lemma_wf_extends(*old(self));
                }
                id
            },
        }
    }

    /// Materialize a 4-byte color.
    pub fn intern_color(&mut self, c: Rgba) -> (r: usize)
        requires
            old(self).wf(),
        ensures
            final(self).wf(),
            Materializer::spec_extends(*old(self), *final(self)),
            spec_color_at(final(self).log_view(), r, c),
            final(self).colors.map_view().contains_key(c),
            final(self).colors.map_view()[c] == r,
            old(self).colors.map_view().contains_key(c) ==> *final(self) == *old(self) && r
                == old(self).colors.map_view()[c],
            final(self).strings == old(self).strings,
            final(self).prop_names == old(self).prop_names,
            final(self).font_styles == old(self).font_styles,
            final(self).families == old(self).families,
            final(self).styles == old(self).styles,
    {
        match self.colors.lookup(&c) {
            Some(id) => id,
            None => {
                let id = self.log.len();
                let ghost old_log = self.log_view();
                self.log.push(HostValue::Color(c));
                proof {
                    assert(self.log_view() =~= old_log.push(HostValueV::Color(c)));
                }
                self.colors.insert(c, id);
                proof {
                    self.lemma_wf_extends(*old(self));
                }
                id
            },
        }
    }

    /// Materialize a font-style record as its three numeric codes.
    pub fn intern_font_style(&mut self, fs: FontStyle) -> (r: usize)
        requires
            old(self).wf(),
        ensures
            final(self).wf(),
            Materializer::spec_extends(*old(self), *final(self)),
            spec_font_style_at(final(self).log_view(), r, fs),
            final(self).font_styles.map_view().contains_key(fs),
            final(self).font_styles.map_view()[fs] == r,
            old(self).font_styles.map_view().contains_key(fs) ==> *final(self) == *old(self)
                && r == old(self).font_styles.map_view()[fs],
            final(self).strings == old(self).strings,
            final(self).prop_names == old(self).prop_names,
            final(self).colors == old(self).colors,
            final(self).families == old(self).families,
            final(self).styles == old(self).styles,
    {
        match self.font_styles.lookup(&fs) {
            Some(id) => id,
            None => {
                let id = self.log.len();
                let ghost old_log = self.log_view();
                self.log.push(
                    HostValue::FontStyleObj {
                        weight: fs.weight.code(),
                        width: fs.width.code(),
                        slant: fs.slant.code(),
                    },
                );
                proof {
                    assert(self.log_view() =~= old_log.push(
                        HostValueV::FontStyleObj {
                            weight: fs.weight.spec_code(),
                            width: fs.width.spec_code(),
                            slant: fs.slant.spec_code(),
                        },
                    ));
                }
                self.font_styles.insert(fs, id);
                proof {
                    self.lemma_wf_extends(*old(self));
                }
                id
            },
        }
    }

    /// Materialize a font-family list: its member strings are each
    /// materialized (and memoized) first, then the list referring to
    /// them.
    pub fn intern_families(&mut self, fams: &Vec<String>) -> (r: usize)
        requires
            old(self).wf(),
        ensures
            final(self).wf(),
            Materializer::spec_extends(*old(self), *final(self)),
            spec_family_list_at(final(self).log_view(), r, fams.deep_view()),
            final(self).families.map_view().contains_key(fams.deep_view()),
            final(self).families.map_view()[fams.deep_view()] == r,
            old(self).families.map_view().contains_key(fams.deep_view()) ==> *final(self)
                == *old(self) && r == old(self).families.map_view()[fams.deep_view()],
            final(self).prop_names == old(self).prop_names,
            final(self).colors == old(self).colors,
            final(self).font_styles == old(self).font_styles,
            final(self).styles == old(self).styles,
    {
        match self.families.lookup(fams) {
            Some(id) => id,
            None => {
                let mut ids: Vec<usize> = Vec::new();
                let n = fams.len();
                for i in 0..n
                    invariant
                        self.wf(),
                        Materializer::spec_extends(*old(self), *self),
                        self.prop_names == old(self).prop_names,
                        self.colors == old(self).colors,
                        self.font_styles == old(self).font_styles,
                        self.families == old(self).families,
                        self.styles == old(self).styles,
                        n == fams@.len(),
                        ids@.len() == i,
                        forall|j: int|
                            0 <= j < i ==> spec_str_at(
                                self.log_view(),
                                #[trigger] ids@[j],
                                fams.deep_view()[j],
                            ),
                {
                    let ghost m_pre = *self;
                    let id_j = self.intern_string(&fams[i]);
                    proof {
                        Materializer::lemma_extends_trans(*old(self), m_pre, *self);
                        assert forall|j: int| 0 <= j < i implies spec_str_at(
                            self.log_view(),
                            #[trigger] ids@[j],
                            fams.deep_view()[j],
                        ) by {
                            lemma_str_at_extends(
                                m_pre.log_view(),
                                self.log_view(),
                                ids@[j],
                                fams.deep_view()[j],
                            );
                        }
                        assert(fams@[i as int]@ == fams.deep_view()[i as int]);
                    }
                    ids.push(id_j);
                }
                let id = self.log.len();
                let ghost pre_push = *self;
                let ghost ids_v = ids@;
                self.log.push(HostValue::FamilyList(ids));
                proof {
                    assert(self.log_view() =~= pre_push.log_view().push(
                        HostValueV::FamilyList(ids_v),
                    ));
                }
                let key = clone_strings(fams);
                self.families.insert(key, id);
                proof {
                    assert(spec_family_list_at(self.log_view(), id, fams.deep_view())) by {
                        assert forall|j: int| 0 <= j < fams.deep_view().len() implies spec_str_at(
                            self.log_view(),
                            #[trigger] ids_v[j],
                            fams.deep_view()[j],
                        ) by {
                            lemma_str_at_extends(
                                pre_push.log_view(),
                                self.log_view(),
                                ids_v[j],
                                fams.deep_view()[j],
                            );
                        }
                    }
                    assert(spec_refs_below(HostValueV::FamilyList(ids_v), id as int));
                    Materializer::lemma_extends_trans(*old(self), pre_push, *self);
                    self.lemma_wf_extends(*old(self));
                }
                id
            },
        }
    }
}


impl Materializer {
    /// Materialize a whole resolved style, memoized by the full
    /// structural style value: its font-style record, family list and
    /// color are materialized (and memoized) first, then one style
    /// object referring to them. Each field of the built object is
    /// present exactly when the style sets it; the height multiplier is
    /// attached only when the options' multiplier is not 1.0.
    pub fn materialize_style(&mut self, style: &TextStyle, opts: &MarkdownOptions) -> (r: usize)
        requires
            old(self).wf(),
        ensures
            final(self).wf(),
            Materializer::spec_extends(*old(self), *final(self)),
            spec_style_at(final(self).log_view(), r, style@),
            final(self).styles.map_view().contains_key(style@),
            final(self).styles.map_view()[style@] == r,
            old(self).styles.map_view().contains_key(style@) ==> *final(self) == *old(self) && r
                == old(self).styles.map_view()[style@],
            !old(self).styles.map_view().contains_key(style@) ==> (final(self).log_view()[
                r as int
            ] matches HostValueV::StyleObj { height_multiplier, .. } && height_multiplier == (
            if opts@.height_multiplier != DEFAULT_HEIGHT_MULTIPLIER_PERMILLE {
                Some(opts@.height_multiplier)
            } else {
                None::<u64>
            })),
            final(self).prop_names == old(self).prop_names,
    {
        match self.styles.lookup(style) {
            Some(id) => id,
            None => {
                let fs_id: Option<usize> = match style.font_style {
                    Some(fs) => Some(self.intern_font_style(fs)),
                    None => None,
                };
                let ghost m1 = *self;
                let fam_id: Option<usize> = match &style.font_families {
                    Some(f) => Some(self.intern_families(f)),
                    None => None,
                };
                let ghost m2 = *self;
                proof {
                    Materializer::lemma_extends_trans(*old(self), m1, m2);
                    match (fs_id, style@.font_style) {
                        (Some(fid), Some(fs)) => lemma_font_style_at_extends(
                            m1.log_view(),
                            m2.log_view(),
                            fid,
                            fs,
                        ),
                        _ => {},
                    }
                }
                let col_id: Option<usize> = match style.color {
                    Some(c) => Some(self.intern_color(c)),
                    None => None,
                };
                let ghost m3 = *self;
                proof {
                    Materializer::lemma_extends_trans(*old(self), m2, m3);
                    match (fs_id, style@.font_style) {
                        (Some(fid), Some(fs)) => lemma_font_style_at_extends(
                            m2.log_view(),
                            m3.log_view(),
                            fid,
                            fs,
                        ),
                        _ => {},
                    }
                    match (fam_id, style@.font_families) {
                        (Some(gid), Some(fams)) => lemma_family_list_at_extends(
                            m2.log_view(),
                            m3.log_view(),
                            gid,
                            fams,
                        ),
                        _ => {},
                    }
                }
                let deco: Option<u8> = match style.decoration {
                    Some(d) => Some(d.code()),
                    None => None,
                };
                let hm: Option<u64> = if opts.height_multiplier
                    != DEFAULT_HEIGHT_MULTIPLIER_PERMILLE {
                    Some(opts.height_multiplier)
                } else {
                    None
                };
                let id = self.log.len();
                let ghost pre_push = *self;
                self.log.push(
                    HostValue::StyleObj {
                        font_size: style.font_size,
                        font_style: fs_id,
                        decoration: deco,
                        font_families: fam_id,
                        color: col_id,
                        height_multiplier: hm,
                    },
                );
                proof {
                    assert(self.log_view() =~= pre_push.log_view().push(
                        HostValueV::StyleObj {
                            font_size: style.font_size,
                            font_style: fs_id,
                            decoration: deco,
                            font_families: fam_id,
                            color: col_id,
                            height_multiplier: hm,
                        },
                    ));
                }
                self.styles.insert(style.clone(), id);
                proof {
                    assert(spec_style_at(self.log_view(), id, style@)) by {
                        match (fs_id, style@.font_style) {
                            (Some(fid), Some(fs)) => lemma_font_style_at_extends(
                                pre_push.log_view(),
                                self.log_view(),
                                fid,
                                fs,
                            ),
                            _ => {},
                        }
                        match (fam_id, style@.font_families) {
                            (Some(gid), Some(fams)) => lemma_family_list_at_extends(
                                pre_push.log_view(),
                                self.log_view(),
                                gid,
                                fams,
                            ),
                            _ => {},
                        }
                        match (col_id, style@.color) {
                            (Some(cid), Some(c)) => lemma_color_at_extends(
                                pre_push.log_view(),
                                self.log_view(),
                                cid,
                                c,
                            ),
                            _ => {},
                        }
                    }
                    assert(spec_refs_below(self.log_view()[id as int], id as int));
                    Materializer::lemma_extends_trans(*old(self), m3, pre_push);
                    Materializer::lemma_extends_trans(*old(self), pre_push, *self);
                    self.lemma_wf_extends(*old(self));
                }
                id
            },
        }
    }

    /// Materialize one segment into a fresh segment object (segments are
    /// not memoized); its content, optional link target and style are
    /// materialized (and memoized) first.
    pub fn materialize_segment(&mut self, seg: &TextSegment, opts: &MarkdownOptions) -> (r: usize)
        requires
            old(self).wf(),
        ensures
            final(self).wf(),
            Materializer::spec_extends(*old(self), *final(self)),
            spec_segment_at(final(self).log_view(), r, seg@),
            r == final(self).log_view().len() - 1,
    {
        let content_id = self.intern_string(&seg.content);
        let ghost m1 = *self;
        let href_id: Option<usize> = match &seg.href {
            Some(h) => Some(self.intern_string(h)),
            None => None,
        };
        let ghost m2 = *self;
        proof {
            Materializer::lemma_extends_trans(*old(self), m1, m2);
            lemma_str_at_extends(m1.log_view(), m2.log_view(), content_id, seg@.content);
        }
        let style_id = self.materialize_style(&seg.style, opts);
        let ghost m3 = *self;
        proof {
            Materializer::lemma_extends_trans(*old(self), m2, m3);
            lemma_str_at_extends(m2.log_view(), m3.log_view(), content_id, seg@.content);
            match (href_id, seg@.href) {
                (Some(hid), Some(h)) => lemma_str_at_extends(
                    m2.log_view(),
                    m3.log_view(),
                    hid,
                    h,
                ),
                _ => {},
            }
        }
        let id = self.log.len();
        let ghost pre_push = *self;
        self.log.push(HostValue::SegmentObj { content: content_id, href: href_id, style: style_id });
        proof {
            assert(self.log_view() =~= pre_push.log_view().push(
                HostValueV::SegmentObj { content: content_id, href: href_id, style: style_id },
            ));
            assert(spec_segment_at(self.log_view(), id, seg@)) by {
                lemma_str_at_extends(pre_push.log_view(), self.log_view(), content_id, seg@.content);
                match (href_id, seg@.href) {
                    (Some(hid), Some(h)) => lemma_str_at_extends(
                        pre_push.log_view(),
                        self.log_view(),
                        hid,
                        h,
                    ),
                    _ => {},
                }
                lemma_style_at_extends(pre_push.log_view(), self.log_view(), style_id, seg@.style);
            }
            assert(spec_refs_below(self.log_view()[id as int], id as int));
            Materializer::lemma_extends_trans(*old(self), m3, pre_push);
            self.lemma_wf_extends(*old(self));
            Materializer::lemma_extends_trans(*old(self), pre_push, *self);
        }
        id
    }

    /// Materialize a whole segment array for one conversion call, in
    /// order. All table reads and writes for the array happen on this one
    /// materializer; the host must hold its single lock around the whole
    /// call when runtimes share the materializer.
    pub fn materialize_segments(&mut self, segs: &Vec<TextSegment>, opts: &MarkdownOptions) -> (r:
        Vec<usize>)
        requires
            old(self).wf(),
        ensures
            final(self).wf(),
            Materializer::spec_extends(*old(self), *final(self)),
            r@.len() == segs@.len(),
            forall|i: int|
                0 <= i < segs@.len() ==> spec_segment_at(
                    final(self).log_view(),
                    #[trigger] r@[i],
                    segs.deep_view()[i],
                ),
    {
        let mut handles: Vec<usize> = Vec::new();
        let n = segs.len();
        for i in 0..n
            invariant
                self.wf(),
                Materializer::spec_extends(*old(self), *self),
                n == segs@.len(),
                handles@.len() == i,
                forall|j: int|
                    0 <= j < i ==> spec_segment_at(
                        self.log_view(),
                        #[trigger] handles@[j],
                        segs.deep_view()[j],
                    ),
        {
            let ghost m_pre = *self;
            let id = self.materialize_segment(&segs[i], opts);
            proof {
                Materializer::lemma_extends_trans(*old(self), m_pre, *self);
                assert forall|j: int| 0 <= j < i implies spec_segment_at(
                    self.log_view(),
                    #[trigger] handles@[j],
                    segs.deep_view()[j],
                ) by {
                    lemma_segment_at_extends(
                        m_pre.log_view(),
                        self.log_view(),
                        handles@[j],
                        segs.deep_view()[j],
                    );
                }
                assert(segs@[i as int]@ == segs.deep_view()[i as int]);
            }
            handles.push(id);
        }
        handles
    }
}

} // verus!
