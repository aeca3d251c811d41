//! Decides from a file's extension which ecosystem the file belongs to.
use vstd::prelude::*;

use crate::text::{ascii_lower, all_ascii, lower_of, lowercase, text_eq};

verus! {

/// The ecosystem that a file belongs to.
#[derive(Clone, Copy, Debug, PartialEq, Eq, Structural)]
pub enum Platform {
    /// Apple projects, opened in Xcode.
    Ios,
    /// Android projects, opened in Android Studio.
    Android,
    /// Neither of the two.
    Unsupported,
}

/// Lowercase extensions, without the dot, of Apple project files.
pub open spec fn ios_extension_table() -> Seq<Seq<char>> {
    seq![
        "swift"@, "m"@, "mm"@, "h"@, "xib"@, "storyboard"@, "plist"@, "xcconfig"@,
        "entitlements"@, "pbxproj"@,
    ]
}

/// Lowercase extensions, without the dot, of Android project files.
pub open spec fn android_extension_table() -> Seq<Seq<char>> {
    seq![
        "kt"@, "kts"@, "java"@, "xml"@, "gradle"@, "groovy"@, "properties"@, "aidl"@,
        "pro"@,
    ]
}

/// The texts that a list of string slices holds.
pub open spec fn texts_of(v: Seq<&str>) -> Seq<Seq<char>> {
    v.map_values(|s: &str| s@)
}

/// The extensions of Apple project files, in table order.
pub fn ios_extensions() -> (r: Vec<&'static str>)
    ensures
        texts_of(r@) == ios_extension_table(),
{
    let mut v: Vec<&'static str> = Vec::new();
    v.push("swift");
    v.push("m");
    v.push("mm");
    v.push("h");
    v.push("xib");
    v.push("storyboard");
    v.push("plist");
    v.push("xcconfig");
    v.push("entitlements");
    v.push("pbxproj");
    assert(texts_of(v@) =~= ios_extension_table());
    v
}

/// The extensions of Android project files, in table order.
pub fn android_extensions() -> (r: Vec<&'static str>)
    ensures
        texts_of(r@) == android_extension_table(),
{
    let mut v: Vec<&'static str> = Vec::new();
    v.push("kt");
    v.push("kts");
    v.push("java");
    v.push("xml");
    v.push("gradle");
    v.push("groovy");
    v.push("properties");
    v.push("aidl");
    v.push("pro");
    assert(texts_of(v@) =~= android_extension_table());
    v
}

/// Whether `table` holds the text `s`.
pub fn table_contains(table: &Vec<&str>, s: &str) -> (r: bool)
    ensures
        r == texts_of(table@).contains(s@),
{
    let mut i: usize = 0;
    while i < table.len()
        invariant
            i <= table@.len(),
            forall|j: int| 0 <= j < i ==> table@[j]@ != s@,
        decreases table@.len() - i,
    {
        if text_eq(table[i], s) {
            assert(texts_of(table@)[i as int] == s@);
            return true;
        }
        i = i + 1;
    }
    assert(!texts_of(table@).contains(s@)) by {
        assert forall|j: int| 0 <= j < texts_of(table@).len() implies texts_of(table@)[j] != s@ by {
            assert(table@[j]@ != s@);
        }
    }
    false
}

/// Position of the last `.` in `p`, if there is one.
pub open spec fn last_dot(p: Seq<char>) -> Option<int>
    decreases p.len(),
{
    if p.len() == 0 {
        None
    } else if p.last() == '.' {
        Some(p.len() - 1)
    } else {
        last_dot(p.drop_last())
    }
}

/// The text after the last `.` of a path; none where the path holds no `.`.
pub open spec fn extension(p: Seq<char>) -> Option<Seq<char>> {
    match last_dot(p) {
        Some(i) => Some(p.subrange(i + 1, p.len() as int)),
        None => None,
    }
}

/// The platform of an extension already in lowercase; the Apple table wins.
pub open spec fn platform_of(lowered: Seq<char>) -> Platform {
    if ios_extension_table().contains(lowered) {
        Platform::Ios
    } else if android_extension_table().contains(lowered) {
        Platform::Android
    } else {
        Platform::Unsupported
    }
}

/// The lowercase of a text as `str::to_lowercase` gives it: on ASCII text,
/// `A`..`Z` become `a`..`z`; beyond ASCII, Unicode's lowercase mapping.
pub open spec fn lower_text(s: Seq<char>) -> Seq<char> {
    if all_ascii(s) {
        ascii_lower(s)
    } else {
        lower_of(s)
    }
}

/// The platform of the file at path `p`: its extension, lowercased, looked
/// up in the two tables.
pub open spec fn classify_spec(p: Seq<char>) -> Platform {
    match extension(p) {
        Some(e) => platform_of(lower_text(e)),
        None => Platform::Unsupported,
    }
}

proof fn lemma_last_dot_prefix(p: Seq<char>, i: int)
    requires
        0 <= i <= p.len(),
        forall|j: int| i <= j < p.len() ==> p[j] != '.',
    ensures
        last_dot(p) == last_dot(p.subrange(0, i)),
    decreases p.len() - i,
{
    if i < p.len() {
        lemma_last_dot_prefix(p, i + 1);
        assert(p.subrange(0, i + 1).drop_last() =~= p.subrange(0, i));
    } else {
        assert(p.subrange(0, i) =~= p);
    }
}

/// The text after the last `.` of `path`, if `path` holds a `.`.
pub fn extension_of(path: &str) -> (r: Option<&str>)
    ensures
        match r {
            Some(e) => extension(path@) == Some(e@),
            None => extension(path@) is None,
        },
{
    let n = path.unicode_len();
    let mut i: usize = n;
    while i > 0
        invariant
            n == path@.len(),
            i <= n,
            forall|j: int| i <= j < n ==> path@[j] != '.',
        decreases i,
    {
        if path.get_char(i - 1) == '.' {
            proof {
                lemma_last_dot_prefix(path@, i as int);
            }
            return Some(path.substring_char(i, n));
        }
        i = i - 1;
    }
    proof {
        lemma_last_dot_prefix(path@, 0);
    }
    None
}

/// The platform of an extension that is already lowercase.
pub fn classify_lowered(lowered: &str) -> (r: Platform)
    ensures
        r == platform_of(lowered@),
{
    if table_contains(&ios_extensions(), lowered) {
        Platform::Ios
    } else if table_contains(&android_extensions(), lowered) {
        Platform::Android
    } else {
        Platform::Unsupported
    }
}

/// The platform of an extension, compared without regard to case.
pub fn classify_extension(ext: &str) -> (r: Platform)
    ensures
        r == platform_of(lower_text(ext@)),
{
    let lowered = lowercase(ext);
    classify_lowered(lowered.as_str())
}

/// The platform of the file at `path`.
pub fn classify(path: &str) -> (r: Platform)
    ensures
        r == classify_spec(path@),
{
    match extension_of(path) {
        Some(e) => classify_extension(e),
        None => Platform::Unsupported,
    }
}

pub(crate) proof fn lemma_extension_after_last_dot(stem: Seq<char>, ext: Seq<char>)
    requires
        !ext.contains('.'),
    ensures
        extension(stem + seq!['.'] + ext) == Some(ext),
{
    let p = stem + seq!['.'] + ext;
    let k = stem.len() as int + 1;
    assert forall|j: int| k <= j < p.len() implies p[j] != '.' by {
        assert(p[j] == ext[j - k]);
    }
    lemma_last_dot_prefix(p, k);
    assert(p.subrange(0, k).last() == '.');
    assert(p.subrange(k, p.len() as int) =~= ext);
}

/// The characters of each entry of the tables.
proof fn lemma_table_spelling()
    ensures
        "swift"@ =~= seq!['s', 'w', 'i', 'f', 't'],
        "m"@ =~= seq!['m'],
        "mm"@ =~= seq!['m', 'm'],
        "h"@ =~= seq!['h'],
        "xib"@ =~= seq!['x', 'i', 'b'],
        "storyboard"@ =~= seq!['s', 't', 'o', 'r', 'y', 'b', 'o', 'a', 'r', 'd'],
        "plist"@ =~= seq!['p', 'l', 'i', 's', 't'],
        "xcconfig"@ =~= seq!['x', 'c', 'c', 'o', 'n', 'f', 'i', 'g'],
        "entitlements"@ =~= seq!['e', 'n', 't', 'i', 't', 'l', 'e', 'm', 'e', 'n', 't', 's'],
        "pbxproj"@ =~= seq!['p', 'b', 'x', 'p', 'r', 'o', 'j'],
        "kt"@ =~= seq!['k', 't'],
        "kts"@ =~= seq!['k', 't', 's'],
        "java"@ =~= seq!['j', 'a', 'v', 'a'],
        "xml"@ =~= seq!['x', 'm', 'l'],
        "gradle"@ =~= seq!['g', 'r', 'a', 'd', 'l', 'e'],
        "groovy"@ =~= seq!['g', 'r', 'o', 'o', 'v', 'y'],
        "properties"@ =~= seq!['p', 'r', 'o', 'p', 'e', 'r', 't', 'i', 'e', 's'],
        "aidl"@ =~= seq!['a', 'i', 'd', 'l'],
        "pro"@ =~= seq!['p', 'r', 'o'],
{
    reveal_strlit("swift");
    reveal_strlit("m");
    reveal_strlit("mm");
    reveal_strlit("h");
    reveal_strlit("xib");
    reveal_strlit("storyboard");
    reveal_strlit("plist");
    reveal_strlit("xcconfig");
    reveal_strlit("entitlements");
    reveal_strlit("pbxproj");
    reveal_strlit("kt");
    reveal_strlit("kts");
    reveal_strlit("java");
    reveal_strlit("xml");
    reveal_strlit("gradle");
    reveal_strlit("groovy");
    reveal_strlit("properties");
    reveal_strlit("aidl");
    reveal_strlit("pro");
}

/// No extension is in both tables.
pub proof fn lemma_tables_disjoint(e: Seq<char>)
    ensures
        !(ios_extension_table().contains(e) && android_extension_table().contains(e)),
{
    lemma_table_spelling();
    if ios_extension_table().contains(e) && android_extension_table().contains(e) {
        let i = choose|i: int| 0 <= i < 10 && ios_extension_table()[i] == e;
        let j = choose|j: int| 0 <= j < 9 && android_extension_table()[j] == e;
        assert(e == "swift"@ || e == "m"@ || e == "mm"@ || e == "h"@ || e == "xib"@
            || e == "storyboard"@ || e == "plist"@ || e == "xcconfig"@ || e == "entitlements"@
            || e == "pbxproj"@);
        assert(e == "kt"@ || e == "kts"@ || e == "java"@ || e == "xml"@ || e == "gradle"@
            || e == "groovy"@ || e == "properties"@ || e == "aidl"@ || e == "pro"@);
        if e == "kt"@ {
            assert(e.len() == 2 && e[0] == 'k' && e[1] == 't');
        } else if e == "kts"@ {
            assert(e.len() == 3 && e[0] == 'k' && e[2] == 's');
        } else if e == "java"@ {
            assert(e.len() == 4 && e[0] == 'j' && e[3] == 'a');
        } else if e == "xml"@ {
            assert(e.len() == 3 && e[0] == 'x' && e[2] == 'l');
        } else if e == "gradle"@ {
            assert(e.len() == 6 && e[0] == 'g' && e[5] == 'e');
        } else if e == "groovy"@ {
            assert(e.len() == 6 && e[0] == 'g' && e[5] == 'y');
        } else if e == "properties"@ {
            assert(e.len() == 10 && e[0] == 'p' && e[9] == 's');
        } else if e == "aidl"@ {
            assert(e.len() == 4 && e[0] == 'a' && e[3] == 'l');
        } else if e == "pro"@ {
            assert(e.len() == 3 && e[0] == 'p' && e[2] == 'o');
        }
    }
}

/// A file whose extension is one of the Apple extensions, in any case,
/// is classified as an Apple file.
pub proof fn lemma_ios_extensions_classify_as_ios(stem: Seq<char>, ext: Seq<char>)
    requires
        !ext.contains('.'),
        ios_extension_table().contains(lower_text(ext)),
    ensures
        classify_spec(stem + seq!['.'] + ext) == Platform::Ios,
{
    lemma_extension_after_last_dot(stem, ext);
}

/// A file whose extension is one of the Android extensions, in any case,
/// is classified as an Android file.
pub proof fn lemma_android_extensions_classify_as_android(stem: Seq<char>, ext: Seq<char>)
    requires
        !ext.contains('.'),
        android_extension_table().contains(lower_text(ext)),
    ensures
        classify_spec(stem + seq!['.'] + ext) == Platform::Android,
{
    lemma_extension_after_last_dot(stem, ext);
    lemma_tables_disjoint(lower_text(ext));
}

/// A file whose extension, lowercased, is in neither table is unsupported.
pub proof fn lemma_other_extensions_unsupported(stem: Seq<char>, ext: Seq<char>)
    requires
        !ext.contains('.'),
        !ios_extension_table().contains(lower_text(ext)),
        !android_extension_table().contains(lower_text(ext)),
    ensures
        classify_spec(stem + seq!['.'] + ext) == Platform::Unsupported,
{
    lemma_extension_after_last_dot(stem, ext);
}

/// A path that holds no `.` is unsupported.
pub proof fn lemma_no_extension_unsupported(p: Seq<char>)
    requires
        !p.contains('.'),
    ensures
        classify_spec(p) == Platform::Unsupported,
{
    lemma_extension_after_last_dot(seq![], p);
    lemma_last_dot_prefix(p, 0);
}

/// A path that ends in `.` has an empty extension and is unsupported.
pub proof fn lemma_empty_extension_unsupported(stem: Seq<char>)
    ensures
        classify_spec(stem + seq!['.']) == Platform::Unsupported,
{
    let e = Seq::<char>::empty();
    assert(stem + seq!['.'] + e =~= stem + seq!['.']);
    lemma_extension_after_last_dot(stem, e);
    assert(lower_text(e) =~= e);
    lemma_table_entry_heads(e);
}

/// Every entry of the tables is non-empty, and the first characters that
/// occur in each.
pub proof fn lemma_table_entry_heads(e: Seq<char>)
    ensures
        ios_extension_table().contains(e) ==> e.len() > 0 && (e[0] == 's' || e[0] == 'm' || e[0]
            == 'h' || e[0] == 'x' || e[0] == 'e' || e[0] == 'p'),
        android_extension_table().contains(e) ==> e.len() > 0 && (e[0] == 'k' || e[0] == 'j'
            || e[0] == 'x' || e[0] == 'g' || e[0] == 'a' || e[0] == 'p'),
{
    lemma_table_spelling();
    if ios_extension_table().contains(e) {
        assert(e == "swift"@ || e == "m"@ || e == "mm"@ || e == "h"@ || e == "xib"@
            || e == "storyboard"@ || e == "plist"@ || e == "xcconfig"@ || e == "entitlements"@
            || e == "pbxproj"@);
    }
    if android_extension_table().contains(e) {
        assert(e == "kt"@ || e == "kts"@ || e == "java"@ || e == "xml"@ || e == "gradle"@
            || e == "groovy"@ || e == "properties"@ || e == "aidl"@ || e == "pro"@);
    }
}

} // verus!
