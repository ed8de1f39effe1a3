//! The decisions of a directory scan: which files are supplementary JSON
//! sidecars, and which media file each sidecar describes.
use crate::parser::ParseError;
use crate::paths::{
    extension_of, file_name_of, path_extension, path_file_name, path_with_file_name, paths_equal,
    same_path, with_file_name_of,
};
use crate::text::{
    eq_ignore_ascii_case, lemma_ignore_case_is_either_case, spells_either_case,
    str_eq_ignore_ascii_case, str_strip_suffix, strip_suffix,
};
use vstd::prelude::*;

verus! {

/// Why a media file could not be handled during a scan.
#[derive(Debug)]
pub enum ScanError {
    /// No supplementary JSON was found for the media file; carries its path.
    JsonNotFound(String),
    Parser(ParseError),
}

/// The file-name suffix that Google Takeout gives supplementary JSON files.
pub open spec fn supplementary_suffix() -> Seq<char> {
    ".supplemental-metadata.json"@
}

/// The views of a sequence of strings.
pub open spec fn views(paths: Seq<String>) -> Seq<Seq<char>> {
    paths.map_values(|s: String| s@)
}

/// Whether a file extension (without its dot) is `json` in any ASCII case.
pub open spec fn spec_is_json_extension(extension: Option<Seq<char>>) -> bool {
    match extension {
        Some(e) => eq_ignore_ascii_case(e, "json"@),
        None => false,
    }
}

/// Whether `path` names a JSON file: its extension is `json` in any ASCII case.
pub open spec fn is_supplementary(path: Seq<char>) -> bool {
    spec_is_json_extension(extension_of(path))
}

/// `is_supplementary` as a predicate.
pub open spec fn supplementary_pred() -> spec_fn(Seq<char>) -> bool {
    |p: Seq<char>| is_supplementary(p)
}

/// The negation of `is_supplementary` as a predicate.
pub open spec fn media_pred() -> spec_fn(Seq<char>) -> bool {
    |p: Seq<char>| !is_supplementary(p)
}

/// The media file name that a sidecar file name describes: the name
/// without the suffix `.supplemental-metadata.json`.
pub open spec fn spec_sidecar_media_name(file_name: Seq<char>) -> Option<Seq<char>> {
    strip_suffix(file_name, supplementary_suffix())
}

/// The media path that the supplementary JSON path `p` describes: `p` with
/// the suffix `.supplemental-metadata.json` removed from its file name.
pub open spec fn spec_supplementary_to_filename(p: Seq<char>) -> Option<Seq<char>> {
    match file_name_of(p) {
        None => None,
        Some(name) => match spec_sidecar_media_name(name) {
            None => None,
            Some(stripped) => Some(with_file_name_of(p, stripped)),
        },
    }
}

/// Whether the JSON path `json` describes a media path equal to `media`.
pub open spec fn describes(json: Seq<char>, media: Seq<char>) -> bool {
    spec_supplementary_to_filename(json) matches Some(k) && same_path(k, media)
}

/// The (media path, JSON path) entries that the JSON paths `paths` give, in
/// order: one for each JSON path whose file name ends with
/// `.supplemental-metadata.json`.
pub open spec fn spec_lookup_entries(paths: Seq<Seq<char>>) -> Seq<(Seq<char>, Seq<char>)>
    decreases paths.len(),
{
    if paths.len() == 0 {
        Seq::empty()
    } else {
        let init = spec_lookup_entries(paths.drop_last());
        match spec_supplementary_to_filename(paths.last()) {
            Some(k) => init.push((k, paths.last())),
            None => init,
        }
    }
}

/// What a lookup holding `entries` gives for the media path `media`: the JSON
/// path of the last entry whose media path equals `media` as a path, as a
/// map keyed by paths gives after inserting the entries in order.
pub open spec fn entries_get(entries: Seq<(Seq<char>, Seq<char>)>, media: Seq<char>) -> Option<
    Seq<char>,
>
    decreases entries.len(),
{
    if entries.len() == 0 {
        None
    } else if same_path(entries.last().0, media) {
        Some(entries.last().1)
    } else {
        entries_get(entries.drop_last(), media)
    }
}

/// The supplementary JSON path that the lookup built from the JSON paths
/// `paths` gives for the media path `media`.
pub open spec fn spec_lookup(paths: Seq<Seq<char>>, media: Seq<char>) -> Option<Seq<char>> {
    entries_get(spec_lookup_entries(paths), media)
}

/// Whether a file extension (without its dot) is `json` in any ASCII case.
pub fn is_json_extension(extension: Option<&str>) -> (r: bool)
    ensures
        r == spec_is_json_extension(
            match extension {
                Some(e) => Some(e@),
                None => None,
            },
        ),
{
    match extension {
        Some(e) => str_eq_ignore_ascii_case(e, "json"),
        None => false,
    }
}

/// Whether `path` names a JSON file (extension `json`, any ASCII case).
pub fn is_supplementary_path(path: &str) -> (r: bool)
    ensures
        r == is_supplementary(path@),
{
    is_json_extension(path_extension(path))
}

/// Splits the walked paths into supplementary JSON files and the rest,
/// keeping the order of each part.
pub fn partition_supplementary(paths: Vec<String>) -> (r: (Vec<String>, Vec<String>))
    ensures
        views(r.0@) == views(paths@).filter(supplementary_pred()),
        views(r.1@) == views(paths@).filter(media_pred()),
{
    let mut supplementary: Vec<String> = Vec::new();
    let mut media: Vec<String> = Vec::new();
    let n = paths.len();
    let mut i: usize = 0;
    while i < n
        invariant
            n == paths@.len(),
            i <= n,
            views(supplementary@) == views(paths@).take(i as int).filter(supplementary_pred()),
            views(media@) == views(paths@).take(i as int).filter(media_pred()),
        decreases n - i,
    {
        let p = paths[i].clone();
        let ghost all = views(paths@);
        proof {
            assert(all.take(i + 1).drop_last() =~= all.take(i as int));
            assert(all.take(i + 1).last() == p@);
            reveal_with_fuel(Seq::filter, 1);
        }
        let ghost old_s = supplementary@;
        let ghost old_m = media@;
        if is_supplementary_path(p.as_str()) {
            supplementary.push(p);
            proof {
                assert(views(supplementary@) =~= views(old_s).push(p@));
            }
        } else {
            media.push(p);
            proof {
                assert(views(media@) =~= views(old_m).push(p@));
            }
        }
        i = i + 1;
    }
    proof {
        assert(views(paths@).take(n as int) =~= views(paths@));
    }
    (supplementary, media)
}

/// The media file name that a sidecar file name describes, if the name ends
/// with `.supplemental-metadata.json`.
pub fn sidecar_media_name(file_name: &str) -> (r: Option<&str>)
    ensures
        match spec_sidecar_media_name(file_name@) {
            Some(m) => r matches Some(s) && s@ == m,
            None => r is None,
        },
{
    str_strip_suffix(file_name, ".supplemental-metadata.json")
}

/// The media path that a supplementary JSON path describes, if the file name
/// ends with `.supplemental-metadata.json`.
pub fn supplementary_to_filename(p: &str) -> (r: Option<String>)
    ensures
        match spec_supplementary_to_filename(p@) {
            Some(m) => r matches Some(s) && s@ == m,
            None => r is None,
        },
{
    let file_name = match path_file_name(p) {
        Some(n) => n,
        None => return None,
    };
    let stripped = match sidecar_media_name(file_name) {
        Some(s) => s,
        None => return None,
    };
    Some(path_with_file_name(p, stripped))
}

/// The lookup from media path to supplementary JSON path built by a scan.
///
/// Entries are kept in insertion order; media paths are compared as paths,
/// and a later entry shadows an earlier one for an equal path.
pub struct SupplementaryLookup {
    entries: Vec<(String, String)>,
}

impl View for SupplementaryLookup {
    type V = Seq<(Seq<char>, Seq<char>)>;

    closed spec fn view(&self) -> Seq<(Seq<char>, Seq<char>)> {
        self.entries@.map_values(|e: (String, String)| (e.0@, e.1@))
    }
}

impl SupplementaryLookup {
    /// An empty lookup.
    pub fn new() -> (r: SupplementaryLookup)
        ensures
            r@ == Seq::<(Seq<char>, Seq<char>)>::empty(),
    {
        SupplementaryLookup { entries: Vec::new() }
    }

    /// Records that `json` is the supplementary file of `media`.
    pub fn insert(&mut self, media: String, json: String)
        ensures
            final(self)@ == old(self)@.push((media@, json@)),
    {
        let ghost old_view = self@;
        self.entries.push((media, json));
        proof {
            assert(self@ =~= old_view.push((media@, json@)));
        }
    }

    /// The supplementary JSON path recorded for a media path equal to
    /// `media`; the latest such record wins.
    pub fn get(&self, media: &str) -> (r: Option<String>)
        ensures
            match entries_get(self@, media@) {
                Some(j) => r matches Some(s) && s@ == j,
                None => r is None,
            },
            (exists|i: int| 0 <= i < self@.len() && #[trigger] self@[i].0 == media@) ==> r is Some,
    {
        let mut i = self.entries.len();
        proof {
            assert(self@.take(i as int) =~= self@);
        }
        while i > 0
            invariant
                i <= self.entries@.len(),
                self@.len() == self.entries@.len(),
                entries_get(self@, media@) == entries_get(self@.take(i as int), media@),
                forall|j: int| i <= j < self@.len() ==> #[trigger] self@[j].0 != media@,
            decreases i,
        {
            proof {
                assert(self@.take(i as int).drop_last() =~= self@.take(i - 1));
                assert(self@.take(i as int).last() == self@[i - 1]);
                assert(self@[i - 1] == (self.entries@[i - 1].0@, self.entries@[i - 1].1@));
            }
            if paths_equal(self.entries[i - 1].0.as_str(), media) {
                return Some(self.entries[i - 1].1.clone());
            }
            i = i - 1;
        }
        None
    }
}

/// Builds the lookup from media path to supplementary JSON path from the
/// supplementary JSON paths of a scan.  JSON paths whose file name does not
/// end with `.supplemental-metadata.json` are left out.
pub fn supplementary_to_lookup(v: Vec<String>) -> (r: SupplementaryLookup)
    ensures
        r@ == spec_lookup_entries(views(v@)),
{
    let mut result = SupplementaryLookup::new();
    let n = v.len();
    let mut i: usize = 0;
    while i < n
        invariant
            n == v@.len(),
            i <= n,
            result@ == spec_lookup_entries(views(v@).take(i as int)),
        decreases n - i,
    {
        proof {
            assert(views(v@).take(i + 1).drop_last() =~= views(v@).take(i as int));
            assert(views(v@).take(i + 1).last() == v@[i as int]@);
        }
        if let Some(changed_value) = supplementary_to_filename(v[i].as_str()) {
            result.insert(changed_value, v[i].clone());
        }
        i = i + 1;
    }
    proof {
        assert(views(v@).take(n as int) =~= views(v@));
    }
    result
}

/// The supplementary JSON path recorded for `media`, or
/// `ScanError::JsonNotFound` carrying the media path.
pub fn locate_supplementary(lookup: &SupplementaryLookup, media: &str) -> (r: Result<String, ScanError>)
    ensures
        match entries_get(lookup@, media@) {
            Some(j) => r matches Ok(s) && s@ == j,
            None => r matches Err(ScanError::JsonNotFound(m)) && m@ == media@,
        },
        (exists|i: int| 0 <= i < lookup@.len() && #[trigger] lookup@[i].0 == media@) ==> r is Ok,
{
    match lookup.get(media) {
        Some(j) => Ok(j),
        None => Err(ScanError::JsonNotFound(media.to_owned())),
    }
}

/// The lookup built from the JSON paths `paths` has an entry for the media
/// path `media` exactly when one of them describes a path equal to `media`,
/// and gives the last JSON path that does.
pub proof fn lemma_lookup_finds_last_sidecar(paths: Seq<Seq<char>>, media: Seq<char>)
    ensures
        spec_lookup(paths, media) is Some <==> exists|i: int|
            0 <= i < paths.len() && #[trigger] describes(paths[i], media),
        spec_lookup(paths, media) matches Some(j) ==> exists|i: int|
            0 <= i < paths.len() && #[trigger] describes(paths[i], media) && j == paths[i]
                && forall|k: int| i < k < paths.len() ==> !#[trigger] describes(paths[k], media),
    decreases paths.len(),
{
    if paths.len() > 0 {
        let init = paths.drop_last();
        let n = paths.len() - 1;
        lemma_lookup_finds_last_sidecar(init, media);
        assert forall|i: int| 0 <= i < init.len() implies paths[i] == init[i] by {}
        let e = spec_lookup_entries(init);
        match spec_supplementary_to_filename(paths[n]) {
            Some(k) => {
                assert(spec_lookup_entries(paths) == e.push((k, paths[n])));
                assert(e.push((k, paths[n])).drop_last() =~= e);
            },
            None => {},
        }
        if describes(paths[n], media) {
            assert(spec_lookup(paths, media) == Some(paths[n]));
        } else {
            assert(spec_lookup(paths, media) == spec_lookup(init, media));
            if spec_lookup(paths, media) is Some {
                let i = choose|i: int|
                    0 <= i < init.len() && #[trigger] describes(init[i], media)
                        && spec_lookup(init, media)->0 == init[i] && forall|k: int|
                        i < k < init.len() ==> !#[trigger] describes(init[k], media);
                assert(describes(paths[i], media));
                assert forall|k: int| i < k < paths.len() implies !#[trigger] describes(
                    paths[k],
                    media,
                ) by {
                    if k < n {
                        assert(paths[k] == init[k]);
                    }
                }
            }
            if exists|i: int| 0 <= i < paths.len() && #[trigger] describes(paths[i], media) {
                let i = choose|i: int| 0 <= i < paths.len() && #[trigger] describes(paths[i], media);
                assert(i < n);
                assert(describes(init[i], media));
            }
        }
    }
}

/// Splitting the walked paths loses none and duplicates none: every path is
/// in exactly one of the two parts, and the parts' lengths add up to the
/// number of paths.
pub proof fn lemma_partition_complete(paths: Seq<Seq<char>>)
    ensures
        paths.filter(supplementary_pred()).len() + paths.filter(media_pred()).len() == paths.len(),
        forall|p: Seq<char>|
            paths.contains(p) ==> (#[trigger] paths.filter(supplementary_pred()).contains(p)
                <==> !paths.filter(media_pred()).contains(p)),
    decreases paths.len(),
{
    reveal_with_fuel(Seq::filter, 1);
    if paths.len() > 0 {
        lemma_partition_complete(paths.drop_last());
    }
    assert forall|p: Seq<char>| paths.contains(p) implies (#[trigger] paths.filter(
        supplementary_pred(),
    ).contains(p) <==> !paths.filter(media_pred()).contains(p)) by {
        let i = choose|i: int| 0 <= i < paths.len() && paths[i] == p;
        let supp = paths.filter(supplementary_pred());
        let media = paths.filter(media_pred());
        if is_supplementary(p) {
            paths.lemma_filter_contains(supplementary_pred(), i);
            if media.contains(p) {
                let j = choose|j: int| 0 <= j < media.len() && media[j] == p;
                paths.lemma_filter_pred(media_pred(), j);
            }
        } else {
            paths.lemma_filter_contains(media_pred(), i);
            if supp.contains(p) {
                let j = choose|j: int| 0 <= j < supp.len() && supp[j] == p;
                paths.lemma_filter_pred(supplementary_pred(), j);
            }
        }
    }
}


/// Whether `e` is `json`, each letter in either case.
pub open spec fn spells_json(e: Seq<char>) -> bool {
    spells_either_case(e, seq!['j', 's', 'o', 'n'], seq!['J', 'S', 'O', 'N'])
}

/// An extension marks a supplementary JSON file exactly when it is `json`,
/// each letter in either case; a missing extension never does.  So a path is
/// supplementary exactly when its extension spells `json`.
pub proof fn lemma_json_extension_by_spelling(e: Seq<char>, p: Seq<char>)
    ensures
        spec_is_json_extension(Some(e)) <==> spells_json(e),
        !spec_is_json_extension(None),
        is_supplementary(p) <==> (extension_of(p) matches Some(x) && spells_json(x)),
{
    reveal_strlit("json");
    assert("json"@ =~= seq!['j', 's', 'o', 'n']);
    lemma_ignore_case_is_either_case(e, seq!['j', 's', 'o', 'n'], seq!['J', 'S', 'O', 'N']);
    if let Some(x) = extension_of(p) {
        lemma_ignore_case_is_either_case(x, seq!['j', 's', 'o', 'n'], seq!['J', 'S', 'O', 'N']);
    }
}

/// The characters of `.supplemental-metadata.json`.
pub open spec fn takeout_sidecar_suffix() -> Seq<char> {
    seq![
        '.', 's', 'u', 'p', 'p', 'l', 'e', 'm', 'e', 'n', 't', 'a', 'l', '-', 'm', 'e', 't', 'a',
        'd', 'a', 't', 'a', '.', 'j', 's', 'o', 'n',
    ]
}

/// The media name of a sidecar name is the sidecar name without the suffix
/// `.supplemental-metadata.json`: every name `m` followed by the suffix gives
/// back `m`, whatever its length; a name that gives some `m` is `m` followed
/// by the suffix; and a name that does not end with the suffix gives none.
pub proof fn lemma_sidecar_name_strips_suffix(m: Seq<char>, n: Seq<char>)
    ensures
        spec_sidecar_media_name(m + takeout_sidecar_suffix()) == Some(m),
        spec_sidecar_media_name(n) matches Some(k) ==> n == k + takeout_sidecar_suffix(),
        spec_sidecar_media_name(n) is None <==> !(n.len() >= takeout_sidecar_suffix().len()
            && n.subrange(n.len() - takeout_sidecar_suffix().len(), n.len() as int)
            == takeout_sidecar_suffix()),
{
    reveal_strlit(".supplemental-metadata.json");
    assert(supplementary_suffix() =~= takeout_sidecar_suffix());
    let x = takeout_sidecar_suffix();
    let mx = m + x;
    assert(mx.subrange(mx.len() - x.len(), mx.len() as int) =~= x);
    assert(mx.subrange(0, mx.len() - x.len()) =~= m);
    if n.len() >= x.len() && n.subrange(n.len() - x.len(), n.len() as int) == x {
        assert(n =~= n.subrange(0, n.len() - x.len()) + x);
    }
}

/// A JSON path whose file name is a media name followed by
/// `.supplemental-metadata.json` describes the path with that media name in
/// place of its file name.
pub proof fn lemma_sidecar_path_describes_media(p: Seq<char>, m: Seq<char>)
    requires
        file_name_of(p) == Some(m + takeout_sidecar_suffix()),
    ensures
        spec_supplementary_to_filename(p) == Some(with_file_name_of(p, m)),
{
    lemma_sidecar_name_strips_suffix(m, m + takeout_sidecar_suffix());
}


/// Whether the extension of `p` spells `json`, each letter in either case.
pub open spec fn json_named(p: Seq<char>) -> bool {
    extension_of(p) matches Some(x) && spells_json(x)
}

/// Splitting the walked paths puts into the supplementary part exactly the
/// paths whose extension spells `json` (each letter in either case), and into
/// the media part exactly the others, each part in walk order.
pub proof fn lemma_partition_by_spelling(paths: Seq<Seq<char>>)
    ensures
        paths.filter(supplementary_pred()) == paths.filter(|p: Seq<char>| json_named(p)),
        paths.filter(media_pred()) == paths.filter(|p: Seq<char>| !json_named(p)),
{
    let named = |p: Seq<char>| json_named(p);
    let unnamed = |p: Seq<char>| !json_named(p);
    assert forall|p: Seq<char>| #[trigger] supplementary_pred()(p) == named(p) by {
        lemma_json_extension_by_spelling(Seq::empty(), p);
    }
    assert forall|p: Seq<char>| #[trigger] media_pred()(p) == unnamed(p) by {
        lemma_json_extension_by_spelling(Seq::empty(), p);
    }
    assert(supplementary_pred() =~= named);
    assert(media_pred() =~= unnamed);
}

} // verus!
