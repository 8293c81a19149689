//! Rules for the sound files a user imports: which formats and sizes are
//! accepted, which names may be looked up, and which stored name a new
//! file receives.

use vstd::prelude::*;
use std::path::{Path, PathBuf};
use crate::text::{ascii_lower, ascii_lowercase, decimal, push_decimal, same_text};

verus! {

/// Largest sound file that is imported: 5 MiB.
pub const SOUND_MAX_BYTES: u64 = 5242880;

#[verifier::external_type_specification]
#[verifier::external_body]
pub struct ExPath(Path);

#[verifier::external_type_specification]
#[verifier::external_body]
pub struct ExPathBuf(PathBuf);

/// The audio containers the web view decodes, in lower case.
pub open spec fn is_allowed_extension(ext: Seq<char>) -> bool {
    ||| ext == "mp3"@
    ||| ext == "wav"@
    ||| ext == "ogg"@
    ||| ext == "oga"@
    ||| ext == "opus"@
    ||| ext == "m4a"@
    ||| ext == "aac"@
    ||| ext == "flac"@
    ||| ext == "weba"@
    ||| ext == "webm"@
}

/// The message for an extension that is not accepted (already lower-cased).
pub open spec fn unsupported_format_message(ext: Seq<char>) -> Seq<char> {
    "不支持的音频格式："@ + if ext.len() == 0 {
        "无扩展名"@
    } else {
        "."@ + ext
    }
}

/// The message for a file over [`SOUND_MAX_BYTES`].
pub open spec fn too_large_message(size: nat) -> Seq<char> {
    "文件过大（"@ + decimal(size) + " 字节），超过 5 MB 上限"@
}

/// A name that every platform reads as one normal path component: not
/// empty, not `.` or `..`, and free of the separators `/` and `\\` and of
/// `:`, which starts a drive prefix.
pub open spec fn is_plain_name(name: Seq<char>) -> bool {
    &&& name.len() > 0
    &&& name != "."@
    &&& name != ".."@
    &&& !name.contains('/')
    &&& !name.contains('\\')
    &&& !name.contains(':')
}

/// The message for a name that is not a plain file name.
pub open spec fn illegal_name_message(name: Seq<char>) -> Seq<char> {
    "非法的提示音文件名："@ + name
}

/// The stored file name tried in round `n` (counting from 1):
/// `stem.ext`, then `stem (2).ext`, `stem (3).ext`, …
pub open spec fn unique_candidate(stem: Seq<char>, ext: Seq<char>, n: nat) -> Seq<char> {
    if n == 1 {
        stem + "."@ + ext
    } else {
        stem + " ("@ + decimal(n) + ")."@ + ext
    }
}

fn is_allowed_extension_exec(ext: &str) -> (r: bool)
    ensures
        r == is_allowed_extension(ext@),
{
    same_text(ext, "mp3") || same_text(ext, "wav") || same_text(ext, "ogg") || same_text(ext, "oga")
        || same_text(ext, "opus") || same_text(ext, "m4a") || same_text(ext, "aac") || same_text(
        ext,
        "flac",
    ) || same_text(ext, "weba") || same_text(ext, "webm")
}

/// Accepts an extension, compared without regard to ASCII case, when the
/// web view can decode it; returns it lower-cased.
pub fn check_sound_extension(ext: &str) -> (r: Result<String, String>)
    ensures
        ({
            let lower = ext@.map_values(|c: char| ascii_lower(c));
            &&& r is Ok <==> is_allowed_extension(lower)
            &&& r matches Ok(e) ==> e@ == lower
            &&& r matches Err(m) ==> m@ == unsupported_format_message(lower)
        }),
{
    let lower = ascii_lowercase(ext);
    if is_allowed_extension_exec(lower.as_str()) {
        Ok(lower)
    } else {
        let mut msg = String::from_str("不支持的音频格式：");
        if lower.as_str().unicode_len() == 0 {
            msg.append("无扩展名");
        } else {
            msg.append(".");
            msg.append(lower.as_str());
        }
        Err(msg)
    }
}

/// Accepts a file of at most [`SOUND_MAX_BYTES`] bytes.
pub fn check_sound_size(size: u64) -> (r: Result<(), String>)
    ensures
        r is Ok <==> size <= SOUND_MAX_BYTES,
        r matches Err(m) ==> m@ == too_large_message(size as nat),
{
    if size > SOUND_MAX_BYTES {
        let mut msg = String::from_str("文件过大（");
        push_decimal(&mut msg, size);
        msg.append(" 字节），超过 5 MB 上限");
        Err(msg)
    } else {
        Ok(())
    }
}

/// The final component of `name` read as a path, when it is valid text
/// (`Path::file_name`, then `OsStr::to_str`). Which component that is
/// depends on the platform's path syntax and is not stated; what the
/// standard library documents of every platform is: the component is a
/// normal one, so it is never empty, never `.` or `..`, and never holds `/`,
/// a separator everywhere; and a name that is a single normal component on
/// every platform ([`is_plain_name`]) is its own final component.
#[verifier::external_body]
fn path_file_name(name: &str) -> (r: Option<String>)
    ensures
        r matches Some(f) ==> (f@.len() > 0 && !f@.contains('/') && f@ != "."@ && f@ != ".."@),
        is_plain_name(name@) ==> (r is Some && r.unwrap()@ == name@),
{
    Path::new(name).file_name().and_then(|f| f.to_str()).map(|f| f.to_string())
}

/// Decides whether a requested sound name is a plain, single-level file
/// name, given what the platform reads as the final component of it.
pub fn sound_name_verdict(name: &str, file_name: Option<&str>) -> (r: Result<(), String>)
    ensures
        r is Ok <==> (name@.len() > 0 && (file_name matches Some(f) && f@ == name@)),
        r matches Err(m) ==> m@ == illegal_name_message(name@),
{
    let plain = match file_name {
        Some(f) => same_text(f, name),
        None => false,
    };
    if name.unicode_len() == 0 || !plain {
        let mut msg = String::from_str("非法的提示音文件名：");
        msg.append(name);
        Err(msg)
    } else {
        Ok(())
    }
}

/// Refuses any name that is not a single-level file name, so that a lookup
/// can never leave the sounds directory (`../`, absolute paths).
pub fn check_sound_file_name(name: &str) -> (r: Result<(), String>)
    ensures
        r is Ok ==> (name@.len() > 0 && !name@.contains('/') && name@ != "."@ && name@ != ".."@),
        r matches Err(m) ==> m@ == illegal_name_message(name@),
        name@.len() == 0 ==> r is Err,
        is_plain_name(name@) ==> r is Ok,
{
    let f = path_file_name(name);
    match &f {
        Some(s) => sound_name_verdict(name, Some(s.as_str())),
        None => sound_name_verdict(name, None),
    }
}

/// The stored file name tried in round `n`.
pub fn unique_file_name_candidate(stem: &str, ext: &str, n: u32) -> (r: String)
    requires
        n >= 1,
    ensures
        r@ == unique_candidate(stem@, ext@, n as nat),
{
    let mut name = String::from_str(stem);
    if n == 1 {
        name.append(".");
    } else {
        name.append(" (");
        push_decimal(&mut name, n as u64);
        name.append(").");
    }
    name.append(ext);
    name
}

/// `Path::join`. The result follows the platform's separator, so nothing is
/// stated of it.
#[verifier::external_body]
fn path_join(dir: &Path, name: &str) -> (r: PathBuf) {
    dir.join(name)
}

/// `Path::exists`: asks the file system, so nothing is stated of the answer.
#[verifier::external_body]
fn path_exists(p: &PathBuf) -> (r: bool) {
    p.exists()
}

/// `taken` answered `answer` when asked about a text made of `name`.
pub open spec fn reported<F: Fn(&str) -> bool>(taken: F, name: Seq<char>, answer: bool) -> bool {
    exists|s: &str| s@ == name && #[trigger] taken.ensures((s,), answer)
}

/// Picks the first name `stem.ext`, `stem (2).ext`, … that `taken` reports
/// free; returns it with its round. Every earlier round was reported taken;
/// the returned one was reported free, unless counting reached `u32::MAX`.
pub fn pick_unique_name<F: Fn(&str) -> bool>(stem: &str, ext: &str, taken: F) -> (r: (String, u32))
    requires
        forall|s: &str| #[trigger] taken.requires((s,)),
    ensures
        1 <= r.1,
        r.0@ == unique_candidate(stem@, ext@, r.1 as nat),
        forall|k: u32|
            1 <= k < r.1 ==> reported(taken, #[trigger] unique_candidate(stem@, ext@, k as nat), true),
        r.1 < u32::MAX ==> reported(taken, r.0@, false),
{
    let mut n: u32 = 1;
    let mut name = unique_file_name_candidate(stem, ext, n);
    let s = name.as_str();
    let mut t = taken(s);
    assert(reported(taken, name@, t));
    while t && n < u32::MAX
        invariant
            1 <= n,
            name@ == unique_candidate(stem@, ext@, n as nat),
            reported(taken, name@, t),
            forall|s: &str| #[trigger] taken.requires((s,)),
            forall|k: u32|
                1 <= k < n ==> reported(taken, #[trigger] unique_candidate(stem@, ext@, k as nat), true),
        decreases u32::MAX - n,
    {
        let ghost prev = n;
        n = n + 1;
        name = unique_file_name_candidate(stem, ext, n);
        let s = name.as_str();
        t = taken(s);
        assert(reported(taken, name@, t));
        assert forall|k: u32|
            1 <= k < n implies reported(taken, #[trigger] unique_candidate(stem@, ext@, k as nat), true) by {
            if k == prev {
            }
        }
    }
    (name, n)
}

/// Whether a file `name` exists in `dir`, as the file system answers.
pub fn name_exists_in(dir: &Path, name: &str) -> (b: bool) {
    path_exists(&path_join(dir, name))
}

/// [`name_exists_in`] answered `answer` when asked about `dir` and a text
/// made of `name`.
pub open spec fn dir_reported(dir: &Path, name: Seq<char>, answer: bool) -> bool {
    exists|s: &str| s@ == name && #[trigger] call_ensures(name_exists_in, (dir, s), answer)
}

/// Picks the first name `stem.ext`, `stem (2).ext`, … that does not exist in
/// `dir`, so that two imported sounds with the same name never overwrite
/// each other, and joins it to `dir`: every earlier round was found to exist
/// in `dir`, and the picked one was found not to, unless counting reached
/// `u32::MAX`.
pub fn pick_unique_file_name(dir: &Path, stem: &str, ext: &str) -> (r: (String, PathBuf))
    ensures
        exists|n: nat|
            1 <= n <= u32::MAX && r.0@ == unique_candidate(stem@, ext@, n) && (forall|k: nat|
                1 <= k < n ==> dir_reported(dir, #[trigger] unique_candidate(stem@, ext@, k), true))
                && (n < u32::MAX ==> dir_reported(dir, r.0@, false)),
{
    let exists_in_dir = |s: &str| -> (b: bool)
        ensures
            call_ensures(name_exists_in, (dir, s), b),
        {
            let probe = name_exists_in;
            probe(dir, s)
        };
    let (name, n) = pick_unique_name(stem, ext, exists_in_dir);
    assert forall|k: nat|
        1 <= k < n implies dir_reported(dir, #[trigger] unique_candidate(stem@, ext@, k), true) by {
        assert(reported(exists_in_dir, unique_candidate(stem@, ext@, (k as u32) as nat), true));
    }
    assert(n < u32::MAX ==> dir_reported(dir, name@, false)) by {
        if n < u32::MAX {
            assert(reported(exists_in_dir, name@, false));
        }
    }
    let path = path_join(dir, name.as_str());
    (name, path)
}

/// The accepted sound formats are exactly these ten lower-case extensions.
pub proof fn allowed_extensions_are_the_decodable_formats(ext: Seq<char>)
    ensures
        is_allowed_extension(ext) <==> set![
            "mp3"@,
            "wav"@,
            "ogg"@,
            "oga"@,
            "opus"@,
            "m4a"@,
            "aac"@,
            "flac"@,
            "weba"@,
            "webm"@,
        ].contains(ext),
{
}

/// Two different rounds never try the same stored name, so picking a fresh
/// round can never land on a name that an earlier round found taken.
pub proof fn unique_candidates_differ(stem: Seq<char>, ext: Seq<char>, n: nat, m: nat)
    requires
        1 <= n,
        1 <= m,
        n != m,
    ensures
        unique_candidate(stem, ext, n) != unique_candidate(stem, ext, m),
{
    reveal_strlit(".");
    reveal_strlit(" (");
    reveal_strlit(").");
    let a = unique_candidate(stem, ext, n);
    let b = unique_candidate(stem, ext, m);
    if n != 1 && m != 1 && a == b {
        let dn = decimal(n);
        let dm = decimal(m);
        assert(a.len() == stem.len() + 4 + dn.len() + ext.len());
        assert(dn.len() == dm.len());
        let lo: int = stem.len() + 2int;
        assert(a.subrange(lo, lo + dn.len() as int) =~= dn);
        assert(b.subrange(lo, lo + dm.len() as int) =~= dm);
        crate::text::decimal_is_injective(n, m);
    }
    if n == 1 || m == 1 {
        crate::text::lemma_decimal_len_positive(if n == 1 { m } else { n });
        assert(a.len() != b.len());
    }
}

} // verus!
