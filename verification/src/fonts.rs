use vstd::prelude::*;
use crate::encode::chars_of;
use crate::input::{file_name, file_name_of};
use crate::text::{text_is, spec_is_whitespace, is_whitespace, push_char, spec_is_ascii, ascii_lower_char};

verus! {

/// Where glyph shapes come from.
#[derive(Debug, Clone, Copy, PartialEq, Eq, Structural)]
pub enum FontBackend {
    DirectWrite,
    FontdueFallback,
}

/// The lowercase mapping that `char::to_lowercase` gives for `c`.
pub uninterp spec fn char_lowercase(c: char) -> Seq<char>;

/// `c` lowercased: an ASCII capital made small, other ASCII left alone, and the full Unicode
/// mapping of `char::to_lowercase` beyond ASCII.
pub open spec fn case_lower_char(c: char) -> Seq<char> {
    if spec_is_ascii(c) { seq![ascii_lower_char(c)] } else { char_lowercase(c) }
}

/// Calls `char::to_lowercase` and collects the characters it yields: one or more, and for an
/// ASCII character just that character made small when it is a capital. The Unicode case
/// tables beyond ASCII are not restated.
#[verifier::external_body]
fn lowercase_char(c: char) -> (r: Vec<char>)
    ensures
        r@ == char_lowercase(c),
        r@.len() >= 1,
        spec_is_ascii(c) ==> r@ == seq![ascii_lower_char(c)],
        r@ == case_lower_char(c),
{
    c.to_lowercase().collect()
}

/// Whether a character of a font name takes part in matching: spacing, `-` and `_` do not.
pub open spec fn kept_in_font_name(c: char) -> bool {
    !spec_is_whitespace(c) && c != '-' && c != '_'
}

/// A font name reduced for matching: spacing, `-` and `_` dropped, the rest lowercased.
pub open spec fn normalized_font_name(s: Seq<char>) -> Seq<char>
    decreases s.len(),
{
    if s.len() == 0 {
        Seq::empty()
    } else {
        normalized_font_name(s.drop_last()) + (if kept_in_font_name(s.last()) {
            case_lower_char(s.last())
        } else {
            Seq::empty()
        })
    }
}

/// Reduces a font name for matching, so that spacing, `-`, `_` and case do not matter.
pub fn normalize_font_name(name: &str) -> (s: String)
    ensures
        s@ == normalized_font_name(name@),
{
    let chars = chars_of(name);
    let mut s = String::new();
    let mut i: usize = 0;
    assert(name@.take(0) =~= Seq::<char>::empty());
    while i < chars.len()
        invariant
            i <= chars@.len(),
            chars@ == name@,
            s@ == normalized_font_name(name@.take(i as int)),
        decreases chars@.len() - i,
    {
        let c = chars[i];
        proof {
            assert(name@.take(i + 1).drop_last() =~= name@.take(i as int));
        }
        if !is_whitespace(c) && c != '-' && c != '_' {
            let lower = lowercase_char(c);
            let ghost before = s@;
            let mut k: usize = 0;
            while k < lower.len()
                invariant
                    k <= lower@.len(),
                    s@ == before + lower@.take(k as int),
                decreases lower@.len() - k,
            {
                push_char(&mut s, lower[k]);
                k = k + 1;
                assert(s@ =~= before + lower@.take(k as int));
            }
            assert(lower@.take(lower@.len() as int) =~= lower@);
        } else {
            assert(s@ =~= s@ + Seq::<char>::empty());
        }
        i = i + 1;
    }
    assert(name@.take(chars@.len() as int) =~= name@);
    s
}

/// The bitmap a glyph coverage map becomes: values of a 0..=16 coverage scale are stretched to
/// 0..=255; a bitmap with a larger value (or none) is already full range and stays.
pub open spec fn stretched_alpha(b: Seq<u8>) -> Seq<u8> {
    if b.len() == 0 || exists|i: int| 0 <= i < b.len() && b[i] > 16 {
        b
    } else {
        b.map_values(|a: u8| (if a * 255 / 16 < 255 { a * 255 / 16 } else { 255 }) as u8)
    }
}

/// Stretches a coverage map on the 0..=16 scale to full 8-bit alpha.
pub fn normalize_aliased_alpha_bitmap(bitmap: &mut Vec<u8>)
    ensures
        final(bitmap)@ == stretched_alpha(old(bitmap)@),
{
    if bitmap.len() == 0 {
        return;
    }
    let mut max_value: u8 = 0;
    let mut i: usize = 0;
    while i < bitmap.len()
        invariant
            i <= bitmap@.len(),
            forall|j: int| 0 <= j < i ==> bitmap@[j] <= max_value,
            max_value == 0 || exists|j: int| 0 <= j < i && bitmap@[j] == max_value,
        decreases bitmap@.len() - i,
    {
        if bitmap[i] > max_value {
            max_value = bitmap[i];
        }
        i = i + 1;
    }
    if max_value > 16 {
        return;
    }
    let ghost old_b = bitmap@;
    let mut k: usize = 0;
    while k < bitmap.len()
        invariant
            k <= bitmap@.len(),
            bitmap@.len() == old_b.len(),
            forall|j: int| 0 <= j < old_b.len() ==> old_b[j] <= 16,
            forall|j: int| k <= j < old_b.len() ==> bitmap@[j] == old_b[j],
            forall|j: int| 0 <= j < k ==> bitmap@[j] == (if old_b[j] * 255 / 16 < 255 { old_b[j] * 255 / 16 } else { 255 }) as u8,
        decreases bitmap@.len() - k,
    {
        let a = bitmap[k];
        let scaled: u16 = (a as u16 * 255) / 16;
        let v: u8 = if scaled < 255 { scaled as u8 } else { 255 };
        bitmap.set(k, v);
        k = k + 1;
    }
    assert(bitmap@ =~= stretched_alpha(old_b));
}

/// Index of the last `.` in `s[0..end]`, or -1.
pub open spec fn last_dot(s: Seq<char>, end: int) -> int
    decreases end,
{
    if end <= 0 {
        -1
    } else if s[end - 1] == '.' {
        end - 1
    } else {
        last_dot(s, end - 1)
    }
}

/// The extension of a file name: what follows its last `.`, unless that `.` starts the name.
pub open spec fn extension(name: Seq<char>) -> Option<Seq<char>> {
    let k = last_dot(name, name.len() as int);
    if k <= 0 {
        None
    } else {
        Some(name.subrange(k + 1, name.len() as int))
    }
}

/// `s` with ASCII capitals made small.
pub open spec fn ascii_lower(s: Seq<char>) -> Seq<char> {
    s.map_values(|c: char| ascii_lower_char(c))
}

/// Whether a path names a TrueType or OpenType font file (or collection), by its extension.
pub open spec fn is_font_path(path: Seq<char>) -> bool {
    match file_name(path) {
        Some(name) => match extension(name) {
            Some(ext) => {
                let e = ascii_lower(ext);
                e == "ttf"@ || e == "otf"@ || e == "ttc"@ || e == "otc"@
            },
            None => false,
        },
        None => false,
    }
}

/// Whether `path` names a font file the terminal can load.
pub fn is_supported_font_file(path: &str) -> (b: bool)
    ensures
        b == is_font_path(path@),
{
    let name = match file_name_of(path) {
        Some(n) => n,
        None => return false,
    };
    let chars = chars_of(name.as_str());
    let ghost nm = name@;
    let mut k: usize = chars.len();
    while k > 0 && chars[k - 1] != '.'
        invariant
            k <= chars@.len(),
            chars@ == nm,
            last_dot(nm, k as int) == last_dot(nm, nm.len() as int),
        decreases k,
    {
        k = k - 1;
    }
    if k <= 1 {
        return false;
    }
    let mut ext = String::new();
    let mut i: usize = k;
    while i < chars.len()
        invariant
            k <= i <= chars@.len(),
            chars@ == nm,
            ext@ == ascii_lower(nm.subrange(k as int, i as int)),
        decreases chars@.len() - i,
    {
        let c = chars[i];
        let lower = if 'A' <= c && c <= 'Z' { ((c as u32) + 32) as u8 as char } else { c };
        push_char(&mut ext, lower);
        i = i + 1;
        assert(ext@ =~= ascii_lower(nm.subrange(k as int, i as int)));
    }
    text_is(&ext, "ttf") || text_is(&ext, "otf") || text_is(&ext, "ttc") || text_is(&ext, "otc")
}

/// A face found among the system fonts: its file, its index in a collection file, and the
/// family names it answers to.
#[derive(Debug, Clone, PartialEq, Eq, Hash)]
pub struct SystemFontFace {
    pub path: String,
    pub collection_index: u32,
    pub family_names: Vec<String>,
}

/// Whether `face` answers to a family name that normalizes to `target`.
pub open spec fn face_answers(face: SystemFontFace, target: Seq<char>) -> bool {
    exists|j: int| 0 <= j < face.family_names@.len() && normalized_font_name(face.family_names@[j]@) == target
}

/// Index of the first face from `i` on that answers to `target`.
pub open spec fn first_face(faces: Seq<SystemFontFace>, target: Seq<char>, i: int) -> Option<int>
    decreases faces.len() - i,
{
    if i < 0 || i >= faces.len() {
        None
    } else if face_answers(faces[i], target) {
        Some(i)
    } else {
        first_face(faces, target, i + 1)
    }
}

/// Whether `face` answers to the normalized name `target`.
fn answers(face: &SystemFontFace, target: &String) -> (b: bool)
    ensures
        b == face_answers(*face, target@),
{
    let mut j: usize = 0;
    while j < face.family_names.len()
        invariant
            j <= face.family_names@.len(),
            forall|k: int| 0 <= k < j ==> normalized_font_name(face.family_names@[k]@) != target@,
        decreases face.family_names@.len() - j,
    {
        let n = normalize_font_name(face.family_names[j].as_str());
        if n == *target {
            return true;
        }
        j = j + 1;
    }
    false
}

/// Index of the first face answering to `requested_family`.
fn find_face_index(faces: &[SystemFontFace], requested_family: &str) -> (r: Option<usize>)
    ensures
        r is Some <==> first_face(faces@, normalized_font_name(requested_family@), 0) is Some,
        r matches Some(i) ==> first_face(faces@, normalized_font_name(requested_family@), 0) == Some(i as int)
            && i < faces@.len(),
{
    let target = normalize_font_name(requested_family);
    let ghost t = target@;
    let mut i: usize = 0;
    while i < faces.len()
        invariant
            i <= faces@.len(),
            t == target@,
            t == normalized_font_name(requested_family@),
            first_face(faces@, t, i as int) == first_face(faces@, t, 0),
        decreases faces@.len() - i,
    {
        if answers(&faces[i], &target) {
            return Some(i);
        }
        i = i + 1;
    }
    None
}

/// The first face answering to `requested_family`, compared after normalizing both names.
pub fn find_system_font_face<'a>(faces: &'a [SystemFontFace], requested_family: &str) -> (r: Option<&'a SystemFontFace>)
    ensures
        r is Some <==> first_face(faces@, normalized_font_name(requested_family@), 0) is Some,
        r matches Some(f) ==> *f == faces@[first_face(faces@, normalized_font_name(requested_family@), 0)->0],
{
    match find_face_index(faces, requested_family) {
        Some(i) => Some(&faces[i]),
        None => None,
    }
}

/// The system families tried after the requested one, in order.
pub open spec fn fallback_families() -> Seq<Seq<char>> {
    seq!["Segoe UI Symbol"@, "Segoe UI Emoji"@, "Microsoft YaHei UI"@, "Microsoft YaHei"@, "SimSun"@,
        "Arial Unicode MS"@, "Arial"@]
}

/// The system families tried after the requested one, in order.
pub fn windows_fallback_families() -> (v: Vec<&'static str>)
    ensures
        v@.map_values(|f: &str| f@) == fallback_families(),
{
    let v = vec!["Segoe UI Symbol", "Segoe UI Emoji", "Microsoft YaHei UI", "Microsoft YaHei", "SimSun",
        "Arial Unicode MS", "Arial"];
    assert(v@.map_values(|f: &str| f@) =~= fallback_families());
    v
}

/// Whether two faces are the same face of the same file.
pub open spec fn same_face(a: SystemFontFace, b: SystemFontFace) -> bool {
    a.path@ == b.path@ && a.collection_index == b.collection_index
}

/// The faces to load for a font chain, as indices into `faces`: for each family in turn, the
/// first face answering to it, unless that face was already chosen.
pub open spec fn chain_faces(faces: Seq<SystemFontFace>, families: Seq<Seq<char>>) -> Seq<int>
    decreases families.len(),
{
    if families.len() == 0 {
        Seq::empty()
    } else {
        let before = chain_faces(faces, families.drop_last());
        match first_face(faces, normalized_font_name(families.last()), 0) {
            Some(i) => if exists|k: int| 0 <= k < before.len() && same_face(faces[before[k]], faces[i]) {
                before
            } else {
                before.push(i)
            },
            None => before,
        }
    }
}

/// The faces to load for the font chain of `requested_family`, followed by the fallback
/// families, each face at most once.
pub fn font_chain_faces(faces: &[SystemFontFace], requested_family: &str) -> (v: Vec<usize>)
    ensures
        v@.map_values(|i: usize| i as int) == chain_faces(faces@, seq![requested_family@] + fallback_families()),
{
    let fallbacks = windows_fallback_families();
    let ghost families = seq![requested_family@] + fallback_families();
    let mut chosen: Vec<usize> = Vec::new();
    let mut n: usize = 0;
    let total = fallbacks.len() + 1;
    assert(families.take(0) =~= Seq::<Seq<char>>::empty());
    assert(chosen@.map_values(|i: usize| i as int) =~= Seq::<int>::empty());
    while n < total
        invariant
            n <= total,
            total == fallbacks@.len() + 1,
            families == seq![requested_family@] + fallback_families(),
            fallbacks@.map_values(|f: &str| f@) == fallback_families(),
            chosen@.map_values(|i: usize| i as int) == chain_faces(faces@, families.take(n as int)),
            forall|k: int| 0 <= k < chosen@.len() ==> chosen@[k] < faces@.len(),
        decreases total - n,
    {
        let family: &str = if n == 0 { requested_family } else { fallbacks[n - 1] };
        proof {
            assert(families.take(n + 1).drop_last() =~= families.take(n as int));
            if n > 0 {
                assert(fallbacks@.map_values(|f: &str| f@)[n - 1] == fallbacks@[n - 1]@);
            }
            assert(families.take(n + 1).last() == family@);
        }
        match find_face_index(faces, family) {
            Some(i) => {
                let ghost before = chosen@.map_values(|c: usize| c as int);
                let mut seen = false;
                let mut k: usize = 0;
                while k < chosen.len()
                    invariant
                        k <= chosen@.len(),
                        i < faces@.len(),
                        forall|j: int| 0 <= j < chosen@.len() ==> chosen@[j] < faces@.len(),
                        before == chosen@.map_values(|c: usize| c as int),
                        seen <==> exists|j: int| 0 <= j < k && same_face(faces@[before[j]], faces@[i as int]),
                    decreases chosen@.len() - k,
                {
                    let c = chosen[k];
                    let same = faces[c].path == faces[i].path && faces[c].collection_index == faces[i].collection_index;
                    proof {
                        assert(before[k as int] == c as int);
                        assert(same == same_face(faces@[before[k as int]], faces@[i as int]));
                    }
                    if same {
                        seen = true;
                    }
                    k = k + 1;
                }
                if !seen {
                    chosen.push(i);
                    assert(chosen@.map_values(|c: usize| c as int) =~= before.push(i as int));
                }
            },
            None => {},
        }
        n = n + 1;
    }
    assert(families.take(total as int) =~= families);
    chosen
}

/// A record of a font's name table: its name id and, when it is Unicode text, the text.
#[derive(Debug, Clone)]
pub struct FontNameRecord {
    pub name_id: u16,
    pub text: Option<String>,
}

/// Whether a name id gives a family name: typographic family (16), family (1) or full name (4).
pub open spec fn is_family_name_id(id: u16) -> bool {
    id == 16 || id == 1 || id == 4
}

/// The family names of a face, in table order: the Unicode texts of family-name records,
/// without empty ones or repeats.
pub open spec fn family_names(records: Seq<(u16, Option<Seq<char>>)>) -> Seq<Seq<char>>
    decreases records.len(),
{
    if records.len() == 0 {
        Seq::empty()
    } else {
        let before = family_names(records.drop_last());
        let (id, text) = records.last();
        match text {
            Some(t) => if is_family_name_id(id) && t.len() > 0 && !before.contains(t) { before.push(t) } else { before },
            None => before,
        }
    }
}

/// The records as plain values.
pub open spec fn record_values(records: Seq<FontNameRecord>) -> Seq<(u16, Option<Seq<char>>)> {
    records.map_values(|r: FontNameRecord| (r.name_id, match r.text { Some(t) => Some(t@), None => None }))
}

/// The family names a face's name records give.
pub fn extract_family_names(records: &[FontNameRecord]) -> (names: Vec<String>)
    ensures
        names@.map_values(|s: String| s@) == family_names(record_values(records@)),
{
    let ghost vals = record_values(records@);
    let mut names: Vec<String> = Vec::new();
    let mut i: usize = 0;
    assert(vals.take(0) =~= Seq::<(u16, Option<Seq<char>>)>::empty());
    assert(names@.map_values(|s: String| s@) =~= Seq::<Seq<char>>::empty());
    while i < records.len()
        invariant
            i <= records@.len(),
            vals == record_values(records@),
            names@.map_values(|s: String| s@) == family_names(vals.take(i as int)),
        decreases records@.len() - i,
    {
        proof {
            assert(vals.take(i + 1).drop_last() =~= vals.take(i as int));
            assert(vals.take(i + 1).last() == vals[i as int]);
        }
        let record = &records[i];
        let id = record.name_id;
        if id == 16 || id == 1 || id == 4 {
            match &record.text {
                Some(t) => {
                    if !t.as_str().is_empty() {
                        let ghost before = names@.map_values(|s: String| s@);
                        let mut present = false;
                        let mut k: usize = 0;
                        while k < names.len()
                            invariant
                                k <= names@.len(),
                                before == names@.map_values(|s: String| s@),
                                present <==> exists|j: int| 0 <= j < k && before[j] == t@,
                            decreases names@.len() - k,
                        {
                            let same = names[k] == *t;
                            proof {
                                assert(before[k as int] == names@[k as int]@);
                            }
                            if same {
                                present = true;
                            }
                            k = k + 1;
                        }
                        if !present {
                            names.push(t.clone());
                            assert(names@.map_values(|s: String| s@) =~= before.push(t@));
                        }
                    }
                },
                None => {},
            }
        }
        i = i + 1;
    }
    assert(vals.take(records@.len() as int) =~= vals);
    names
}


/// What `ttf_parser::fonts_in_collection` reads from font bytes: the number of faces of a
/// collection, or `None` when the bytes are not a collection.
pub uninterp spec fn collection_face_count(data: Seq<u8>) -> Option<u32>;

/// Calls `ttf_parser::fonts_in_collection` on `data`.
#[verifier::external_body]
fn fonts_in_collection(data: &[u8]) -> (r: Option<u32>)
    ensures
        r == collection_face_count(data@),
{
    ttf_parser::fonts_in_collection(data)
}

/// What parsing face `index` of font bytes with `ttf_parser::Face::parse` and walking its
/// `names()` gives: `None` when the face does not parse, else each name record's id and, for
/// a Unicode record whose text decodes, its text.
pub uninterp spec fn face_name_values(data: Seq<u8>, index: u32) -> Option<Seq<(u16, Option<Seq<char>>)>>;

/// Calls `ttf_parser::Face::parse` on face `index` of `data` and returns its name records,
/// their text from `Name::to_string`; `None` when the face does not parse.
#[verifier::external_body]
fn face_name_records(data: &[u8], index: u32) -> (r: Option<Vec<FontNameRecord>>)
    ensures
        r is None <==> face_name_values(data@, index) is None,
        r matches Some(v) ==> record_values(v@) == face_name_values(data@, index)->0,
{
    match ttf_parser::Face::parse(data, index) {
        Ok(face) => Some(face.names().into_iter()
            .map(|name| FontNameRecord { name_id: name.name_id, text: name.to_string() })
            .collect()),
        Err(_) => None,
    }
}

/// How many faces a font file holds: the collection's count, else one.
pub open spec fn faces_in_data(data: Seq<u8>) -> nat {
    match collection_face_count(data) {
        Some(n) => n as nat,
        None => 1,
    }
}

/// The faces `0..k` of a font file that parse and have a family name, each as its index and
/// its family names, in index order.
pub open spec fn named_faces(data: Seq<u8>, k: nat) -> Seq<(u32, Seq<Seq<char>>)>
    decreases k,
{
    if k == 0 {
        Seq::empty()
    } else {
        let before = named_faces(data, (k - 1) as nat);
        let i = (k - 1) as u32;
        match face_name_values(data, i) {
            Some(vals) => if family_names(vals).len() > 0 { before.push((i, family_names(vals))) } else { before },
            None => before,
        }
    }
}

/// A face as its index and family names.
pub open spec fn face_entry(f: SystemFontFace) -> (u32, Seq<Seq<char>>) {
    (f.collection_index, f.family_names@.map_values(|s: String| s@))
}

/// The faces of the font file at `path` with contents `data` that parse and have a family name,
/// in index order; a file that is not a collection holds one face.
pub fn faces_in_font_file(path: &str, data: &[u8]) -> (faces: Vec<SystemFontFace>)
    ensures
        faces@.map_values(|f: SystemFontFace| face_entry(f)) == named_faces(data@, faces_in_data(data@)),
        forall|i: int| 0 <= i < faces@.len() ==> (#[trigger] faces@[i]).path@ == path@,
{
    let count: u32 = match fonts_in_collection(data) {
        Some(n) => n,
        None => 1,
    };
    let mut faces: Vec<SystemFontFace> = Vec::new();
    let mut index: u32 = 0;
    while index < count
        invariant
            index <= count,
            count as nat == faces_in_data(data@),
            faces@.map_values(|f: SystemFontFace| face_entry(f)) == named_faces(data@, index as nat),
            forall|i: int| 0 <= i < faces@.len() ==> (#[trigger] faces@[i]).path@ == path@,
        decreases count - index,
    {
        let ghost before = faces@;
        match face_name_records(data, index) {
            Some(records) => {
                let names = extract_family_names(records.as_slice());
                if names.len() > 0 {
                    let face = SystemFontFace { path: String::from_str(path), collection_index: index, family_names: names };
                    faces.push(face);
                    assert(faces@.map_values(|f: SystemFontFace| face_entry(f))
                        =~= before.map_values(|f: SystemFontFace| face_entry(f)).push(face_entry(face)));
                }
            },
            None => {},
        }
        index = index + 1;
    }
    faces
}

} // verus!
