//! The engine distribution: which files it is made of, the digest that names it, and how it is
//! published into an immutable directory of that name.

use vstd::prelude::*;
use vstd::bytes::*;
use vstd::utf8::*;
use crate::failure::Failure;
use crate::mcp_stdio::PACKAGE_VERSION;
use crate::text::chars_of;
use crate::text::decimal;
use crate::text::decimal_text;
use crate::text::opt_text;
use crate::text::same_text;

verus! {

/// The file that marks a complete directory, with the digest of its payload.
pub const DIGEST_MARKER: &'static str = ".embedded-digest";

/// One file of the engine distribution.
#[derive(Clone, Copy)]
pub struct EmbeddedFile {
    pub path: &'static str,
    pub bytes: &'static [u8],
}

/// The paths of the engine distribution. A file that is not on the list does not ship.
pub open spec fn inventory() -> Seq<Seq<char>> {
    seq![
        "pyproject.toml"@,
        "ryu_research/__init__.py"@,
        "ryu_research/__main__.py"@,
        "ryu_research/server.py"@,
        "ryu_research/experiments.py"@,
        "ryu_research/campaigns.py"@,
        "ryu_research/workspaces.py"@,
        "experiments/toy/experiment.toml"@,
        "experiments/toy/program.md"@,
        "experiments/toy/train.py"@,
        "experiments/nanochat/experiment.toml"@,
        "experiments/nanochat/program.md"@,
        "experiments/nanochat/prepare.py"@,
        "experiments/nanochat/train.py"@,
    ]
}

/// The texts of some paths.
pub open spec fn path_texts(paths: Seq<&'static str>) -> Seq<Seq<char>> {
    paths.map_values(|p: &'static str| p@)
}

/// The paths of some files.
pub open spec fn file_paths(files: Seq<EmbeddedFile>) -> Seq<Seq<char>> {
    files.map_values(|f: EmbeddedFile| f.path@)
}

/// The paths of the engine distribution.
pub fn embedded_paths() -> (r: Vec<&'static str>)
    ensures
        path_texts(r@) == inventory(),
{
    let paths: Vec<&'static str> = vec![
        "pyproject.toml",
        "ryu_research/__init__.py",
        "ryu_research/__main__.py",
        "ryu_research/server.py",
        "ryu_research/experiments.py",
        "ryu_research/campaigns.py",
        "ryu_research/workspaces.py",
        "experiments/toy/experiment.toml",
        "experiments/toy/program.md",
        "experiments/toy/train.py",
        "experiments/nanochat/experiment.toml",
        "experiments/nanochat/program.md",
        "experiments/nanochat/prepare.py",
        "experiments/nanochat/train.py",
    ];
    assert(path_texts(paths@) =~= inventory());
    paths
}

/// Whether the files are the engine distribution: every listed path, in order, with contents.
pub open spec fn complete(files: Seq<EmbeddedFile>) -> bool {
    &&& file_paths(files) == inventory()
    &&& forall|i: int| 0 <= i < files.len() ==> (#[trigger] files[i]).bytes@.len() > 0
}

/// The engine distribution with those contents, in the order of its paths. There is none where
/// the contents are too few or too many, or one of them is empty.
pub fn embedded_files(contents: &Vec<&'static [u8]>) -> (r: Option<Vec<EmbeddedFile>>)
    ensures
        r is Some <==> contents@.len() == inventory().len() && forall|i: int|
            0 <= i < contents@.len() ==> (#[trigger] contents@[i])@.len() > 0,
        r matches Some(files) ==> {
            &&& complete(files@)
            &&& files@.len() == contents@.len()
            &&& forall|i: int|
                0 <= i < files@.len() ==> (#[trigger] files@[i]).bytes@ == contents@[i]@
        },
{
    let paths: Vec<&'static str> = embedded_paths();
    assert(path_texts(paths@).len() == paths@.len());
    if contents.len() != paths.len() {
        return None;
    }
    let mut files: Vec<EmbeddedFile> = Vec::new();
    let mut i: usize = 0;
    while i < paths.len()
        invariant
            i <= paths@.len(),
            paths@.len() == contents@.len(),
            paths@.len() == inventory().len(),
            path_texts(paths@) == inventory(),
            files@.len() == i,
            forall|j: int| 0 <= j < i ==> (#[trigger] files@[j]).path@ == paths@[j]@,
            forall|j: int|
                0 <= j < i ==> (#[trigger] files@[j]).bytes@ == contents@[j]@
                    && contents@[j]@.len() > 0,
        decreases paths@.len() - i,
    {
        let bytes: &'static [u8] = contents[i];
        if bytes.len() == 0 {
            assert(contents@[i as int]@.len() == 0);
            return None;
        }
        files.push(EmbeddedFile { path: paths[i], bytes: bytes });
        i += 1;
    }
    proof {
        assert forall|j: int| 0 <= j < files@.len() implies file_paths(files@)[j]
            == inventory()[j] by {
            assert(files@[j].path@ == paths@[j]@);
            assert(path_texts(paths@)[j] == paths@[j]@);
        }
        assert(file_paths(files@) =~= inventory());
        assert forall|j: int| 0 <= j < contents@.len() implies (#[trigger] contents@[j])@.len()
            > 0 by {
            assert(files@[j].bytes@ == contents@[j]@);
        }
    }
    Some(files)
}

/// Whether the engine is installed. Its payload ships with the process.
pub fn is_installed(files: &Vec<EmbeddedFile>) -> (r: bool)
    ensures
        r == (files@.len() > 0),
{
    files.len() > 0
}

/// The length of some bytes, as it stands before them in a payload.
pub open spec fn length_bytes(n: nat) -> Seq<u8> {
    spec_u64_to_le_bytes(n as u64)
}

/// One file in a payload: its path and its contents, each behind its length.
pub open spec fn framed(file: EmbeddedFile) -> Seq<u8> {
    length_bytes(encode_utf8(file.path@).len()) + encode_utf8(file.path@) + length_bytes(
        file.bytes@.len(),
    ) + file.bytes@
}

/// The payload that some files make.
pub open spec fn payload(files: Seq<EmbeddedFile>) -> Seq<u8>
    decreases files.len(),
{
    if files.len() == 0 {
        Seq::empty()
    } else {
        payload(files.drop_last()) + framed(files.last())
    }
}

/// What `sha2::Sha256` makes of some bytes.
pub uninterp spec fn sha256(bytes: Seq<u8>) -> Seq<u8>;

/// `sha2::Sha256::digest`: the SHA-256 hash of the bytes, 32 bytes that are only named.
#[verifier::external_body]
fn sha256_digest(bytes: &[u8]) -> (r: Vec<u8>)
    ensures
        r@ == sha256(bytes@),
        r@.len() == 32,
{
    <sha2::Sha256 as sha2::Digest>::digest(bytes).to_vec()
}

/// The lower-case hexadecimal digit of a number below sixteen.
pub open spec fn hex_digit(d: int) -> char {
    if d < 10 {
        (d + 48) as u8 as char
    } else {
        (d + 87) as u8 as char
    }
}

/// The lower-case hexadecimal text of some bytes: two digits for each, the high one first.
pub open spec fn hex_text(bytes: Seq<u8>) -> Seq<char> {
    Seq::new(
        2 * bytes.len(),
        |i: int|
            if i % 2 == 0 {
                hex_digit(bytes[i / 2] as int / 16)
            } else {
                hex_digit(bytes[i / 2] as int % 16)
            },
    )
}

/// `hex::encode`: the lower-case hexadecimal text of the bytes.
#[verifier::external_body]
pub(crate) fn hex_encode(bytes: &[u8]) -> (r: String)
    ensures
        r@ == hex_text(bytes@),
{
    hex::encode(bytes)
}

/// The digest of the engine distribution.
pub open spec fn digest_of(files: Seq<EmbeddedFile>) -> Seq<char> {
    hex_text(sha256(payload(files)))
}

fn frame(out: &mut Vec<u8>, bytes: &[u8])
    ensures
        final(out)@ == old(out)@ + length_bytes(bytes@.len()) + bytes@,
{
    let mut length: Vec<u8> = u64_to_le_bytes(bytes.len() as u64);
    out.append(&mut length);
    let ghost before = out@;
    let mut i: usize = 0;
    assert(before + bytes@.take(0) =~= before);
    while i < bytes.len()
        invariant
            i <= bytes@.len(),
            out@ == before + bytes@.take(i as int),
        decreases bytes@.len() - i,
    {
        out.push(bytes[i]);
        assert(bytes@.take(i + 1) =~= bytes@.take(i as int).push(bytes@[i as int]));
        assert(out@ =~= before + bytes@.take(i + 1));
        i += 1;
    }
    assert(bytes@.take(bytes@.len() as int) =~= bytes@);
}

/// The payload that some files make.
fn payload_bytes(files: &Vec<EmbeddedFile>) -> (r: Vec<u8>)
    ensures
        r@ == payload(files@),
{
    let mut out: Vec<u8> = Vec::new();
    let mut i: usize = 0;
    assert(payload(files@.take(0)) =~= Seq::<u8>::empty());
    while i < files.len()
        invariant
            i <= files@.len(),
            out@ == payload(files@.take(i as int)),
        decreases files@.len() - i,
    {
        let ghost before = out@;
        let file: EmbeddedFile = files[i];
        frame(&mut out, file.path.as_bytes());
        frame(&mut out, file.bytes);
        proof {
            assert(files@.take(i + 1).drop_last() =~= files@.take(i as int));
            assert(out@ =~= before + framed(file));
        }
        i += 1;
    }
    assert(files@.take(files@.len() as int) =~= files@);
    out
}

/// The digest of the engine distribution: the SHA-256 hash of its payload, in hexadecimal.
pub fn payload_digest(files: &Vec<EmbeddedFile>) -> (r: String)
    ensures
        r@ == digest_of(files@),
        r@.len() == 64,
{
    let bytes: Vec<u8> = payload_bytes(files);
    let hash: Vec<u8> = sha256_digest(bytes.as_slice());
    hex_encode(hash.as_slice())
}

/// Whether the lengths of the files can be written down.
pub open spec fn lengths_fit(files: Seq<EmbeddedFile>) -> bool {
    forall|i: int|
        0 <= i < files.len() ==> encode_utf8((#[trigger] files[i]).path@).len() <= u64::MAX
            && files[i].bytes@.len() <= u64::MAX
}

proof fn lemma_payload_front(files: Seq<EmbeddedFile>)
    requires
        files.len() > 0,
    ensures
        payload(files) == framed(files[0]) + payload(files.drop_first()),
    decreases files.len(),
{
    let rest = files.drop_first();
    if files.len() == 1 {
        assert(files.drop_last() =~= Seq::<EmbeddedFile>::empty());
        assert(rest =~= Seq::<EmbeddedFile>::empty());
        assert(payload(files.drop_last()) =~= Seq::<u8>::empty());
        assert(payload(files) =~= framed(files[0]) + payload(rest));
    } else {
        lemma_payload_front(files.drop_last());
        assert(files.drop_last().drop_first() =~= rest.drop_last());
        assert(payload(files) =~= framed(files[0]) + (payload(rest.drop_last()) + framed(
            rest.last(),
        )));
    }
}

proof fn lemma_framed_front(a: EmbeddedFile, b: EmbeddedFile, rest_a: Seq<u8>, rest_b: Seq<u8>)
    requires
        encode_utf8(a.path@).len() <= u64::MAX,
        encode_utf8(b.path@).len() <= u64::MAX,
        a.bytes@.len() <= u64::MAX,
        b.bytes@.len() <= u64::MAX,
        framed(a) + rest_a == framed(b) + rest_b,
    ensures
        a.path@ == b.path@,
        a.bytes@ == b.bytes@,
        rest_a == rest_b,
{
    lemma_auto_spec_u64_to_from_le_bytes();
    let (pa, pb) = (encode_utf8(a.path@), encode_utf8(b.path@));
    let whole_a = framed(a) + rest_a;
    let whole_b = framed(b) + rest_b;
    assert(whole_a.subrange(0, 8) =~= length_bytes(pa.len()));
    assert(whole_b.subrange(0, 8) =~= length_bytes(pb.len()));
    assert(pa.len() == pb.len());
    let n = pa.len() as int;
    assert(whole_a.subrange(8, 8 + n) =~= pa);
    assert(whole_b.subrange(8, 8 + n) =~= pb);
    encode_utf8_decode_utf8(a.path@);
    encode_utf8_decode_utf8(b.path@);
    assert(whole_a.subrange(8 + n, 16 + n) =~= length_bytes(a.bytes@.len()));
    assert(whole_b.subrange(8 + n, 16 + n) =~= length_bytes(b.bytes@.len()));
    assert(a.bytes@.len() == b.bytes@.len());
    let m = a.bytes@.len() as int;
    assert(whole_a.subrange(16 + n, 16 + n + m) =~= a.bytes@);
    assert(whole_b.subrange(16 + n, 16 + n + m) =~= b.bytes@);
    assert(whole_a.subrange(16 + n + m, whole_a.len() as int) =~= rest_a);
    assert(whole_b.subrange(16 + n + m, whole_b.len() as int) =~= rest_b);
}

/// Two distributions with one payload are the same files: no rename and no shift of bytes from one
/// file to another leaves the payload as it is.
pub proof fn law_payloads_tell_files_apart(a: Seq<EmbeddedFile>, b: Seq<EmbeddedFile>)
    requires
        lengths_fit(a),
        lengths_fit(b),
        payload(a) == payload(b),
    ensures
        a.len() == b.len(),
        forall|i: int|
            0 <= i < a.len() ==> (#[trigger] a[i]).path@ == b[i].path@ && a[i].bytes@
                == b[i].bytes@,
    decreases a.len(),
{
    lemma_auto_spec_u64_to_from_le_bytes();
    if a.len() > 0 {
        lemma_payload_front(a);
        assert(length_bytes(encode_utf8(a[0].path@).len()).len() == 8);
        assert(payload(a).len() > 0);
    }
    if b.len() > 0 {
        lemma_payload_front(b);
        assert(length_bytes(encode_utf8(b[0].path@).len()).len() == 8);
        assert(payload(b).len() > 0);
    }
    if a.len() > 0 && b.len() > 0 {
        assert(encode_utf8(a[0].path@).len() <= u64::MAX);
        assert(encode_utf8(b[0].path@).len() <= u64::MAX);
        lemma_framed_front(a[0], b[0], payload(a.drop_first()), payload(b.drop_first()));
        law_payloads_tell_files_apart(a.drop_first(), b.drop_first());
        assert forall|i: int| 0 <= i < a.len() implies (#[trigger] a[i]).path@ == b[i].path@
            && a[i].bytes@ == b[i].bytes@ by {
            if i > 0 {
                assert(a.drop_first()[i - 1] == a[i]);
                assert(b.drop_first()[i - 1] == b[i]);
            }
        }
    }
}

/// Whether a character separates the segments of a path. On Windows the backslash does too.
pub open spec fn separator(c: char, windows: bool) -> bool {
    c == '/' || (windows && c == '\\')
}

/// Whether a path begins with the letter of a drive.
pub open spec fn drive_prefix(path: Seq<char>) -> bool {
    &&& path.len() >= 2
    &&& 'a' <= path[0] <= 'z' || 'A' <= path[0] <= 'Z'
    &&& path[1] == ':'
}

/// Whether a path is read from somewhere else than the current directory: from the root, or, on
/// Windows, from a drive or a share.
pub open spec fn anchored(path: Seq<char>, windows: bool) -> bool {
    ||| path.len() > 0 && separator(path[0], windows)
    ||| windows && drive_prefix(path)
}

/// The segments of a path, between its separators.
pub open spec fn segments(path: Seq<char>, windows: bool) -> Seq<Seq<char>>
    decreases path.len(),
{
    if path.len() == 0 {
        seq![Seq::<char>::empty()]
    } else {
        let before = segments(path.drop_last(), windows);
        if separator(path.last(), windows) {
            before.push(Seq::empty())
        } else {
            before.drop_last().push(before.last().push(path.last()))
        }
    }
}

/// Whether a segment names something: it is not empty, and does not stand for the directory that
/// it is in.
pub open spec fn names_something(segment: Seq<char>) -> bool {
    segment.len() > 0 && segment != "."@
}

/// The segments that name something.
pub open spec fn naming(parts: Seq<Seq<char>>) -> Seq<Seq<char>>
    decreases parts.len(),
{
    if parts.len() == 0 {
        Seq::empty()
    } else if names_something(parts.last()) {
        naming(parts.drop_last()).push(parts.last())
    } else {
        naming(parts.drop_last())
    }
}

/// The components of a path: the names on the way to what it stands for.
pub open spec fn components(path: Seq<char>, windows: bool) -> Seq<Seq<char>> {
    naming(segments(path, windows))
}

/// Whether a path stays below the directory that it is read in: it is relative and names no drive,
/// does not begin at the current directory, and never goes up.
pub open spec fn safe_path(path: Seq<char>, windows: bool) -> bool {
    &&& !anchored(path, windows)
    &&& segments(path, windows)[0] != "."@
    &&& forall|i: int| 0 <= i < segments(path, windows).len() ==> #[trigger] segments(path, windows)[i] != ".."@
}

/// The texts of some strings.
pub open spec fn texts(strings: Seq<String>) -> Seq<Seq<char>> {
    strings.map_values(|s: String| s@)
}

/// What is said against a path that is not safe.
pub open spec fn unsafe_complaint(path: Seq<char>) -> Seq<char> {
    "unsafe embedded research path: "@ + path
}

fn split_path(path: &str, windows: bool) -> (r: Vec<String>)
    ensures
        texts(r@) == segments(path@, windows),
{
    let chars: Vec<char> = chars_of(path);
    let mut parts: Vec<String> = Vec::new();
    let mut current: String = String::new();
    let mut i: usize = 0;
    assert(texts(parts@).push(current@) =~= segments(path@.take(0), windows));
    while i < chars.len()
        invariant
            i <= chars@.len(),
            chars@ == path@,
            texts(parts@).push(current@) == segments(path@.take(i as int), windows),
        decreases chars@.len() - i,
    {
        let c: char = chars[i];
        let ghost before = texts(parts@).push(current@);
        proof {
            assert(path@.take(i + 1).drop_last() =~= path@.take(i as int));
            assert(before.drop_last() =~= texts(parts@));
        }
        if c == '/' || (windows && c == '\\') {
            parts.push(current);
            current = String::new();
            assert(texts(parts@).push(current@) =~= before.push(Seq::<char>::empty()));
        } else {
            current.push(c);
        }
        i += 1;
    }
    parts.push(current);
    assert(path@.take(path@.len() as int) =~= path@);
    assert(texts(parts@) =~= segments(path@, windows));
    parts
}

proof fn lemma_segments_not_empty(path: Seq<char>, windows: bool)
    ensures
        segments(path, windows).len() > 0,
    decreases path.len(),
{
    if path.len() > 0 {
        lemma_segments_not_empty(path.drop_last(), windows);
    }
}

/// Whether a path is read from somewhere else than the current directory.
fn is_anchored(path: &str, windows: bool) -> (r: bool)
    ensures
        r == anchored(path@, windows),
{
    let chars: Vec<char> = chars_of(path);
    if chars.len() == 0 {
        return false;
    }
    let c: char = chars[0];
    if c == '/' || (windows && c == '\\') {
        return true;
    }
    windows && chars.len() >= 2 && (('a' <= c && c <= 'z') || ('A' <= c && c <= 'Z')) && chars[1]
        == ':'
}

/// The components of a path that stays below the directory that it is read in. `windows` tells
/// whether paths are read as on Windows, where the backslash separates too and a letter with a
/// colon names a drive.
pub fn safe_embedded_path(path: &str, windows: bool) -> (r: Result<Vec<String>, Failure>)
    ensures
        match r {
            Ok(parts) => safe_path(path@, windows) && texts(parts@) == components(path@, windows),
            Err(e) => !safe_path(path@, windows) && e@ == unsafe_complaint(path@),
        },
{
    let parts: Vec<String> = split_path(path, windows);
    proof {
        lemma_segments_not_empty(path@, windows);
        assert(texts(parts@).len() == parts@.len());
        assert(texts(parts@)[0] == parts@[0]@);
    }
    let mut safe: bool = !is_anchored(path, windows) && !same_text(parts[0].as_str(), ".");
    let mut kept: Vec<String> = Vec::new();
    let mut i: usize = 0;
    assert(texts(kept@) =~= naming(segments(path@, windows).take(0)));
    while i < parts.len()
        invariant
            i <= parts@.len(),
            texts(parts@) == segments(path@, windows),
            segments(path@, windows).len() > 0,
            texts(kept@) == naming(segments(path@, windows).take(i as int)),
            safe == (!anchored(path@, windows) && segments(path@, windows)[0] != "."@
                && forall|j: int| 0 <= j < i ==> #[trigger] segments(path@, windows)[j] != ".."@),
        decreases parts@.len() - i,
    {
        let part: &str = parts[i].as_str();
        proof {
            assert(segments(path@, windows)[i as int] == part@) by {
                assert(texts(parts@)[i as int] == parts@[i as int]@);
            }
            let next = segments(path@, windows).take(i + 1);
            assert(next.drop_last() =~= segments(path@, windows).take(i as int));
            assert(next.last() == part@);
        }
        if same_text(part, "..") {
            safe = false;
        }
        if !part.is_empty() && !same_text(part, ".") {
            let ghost before = texts(kept@);
            kept.push(part.to_owned());
            assert(texts(kept@) =~= before.push(part@));
        }
        i += 1;
    }
    assert(segments(path@, windows).take(segments(path@, windows).len() as int) =~= segments(path@, windows));
    if safe {
        Ok(kept)
    } else {
        let mut message: String = "unsafe embedded research path: ".to_owned();
        message.append(path);
        Err(Failure { message: message })
    }
}

/// A file that is to be written below the directory, by its path and the components of that.
pub struct PlannedFile {
    pub path: &'static str,
    pub components: Vec<String>,
    pub bytes: &'static [u8],
}

/// What is to be written into a fresh directory: the files, and then the digest under
/// `DIGEST_MARKER`.
pub struct InstallPlan {
    pub files: Vec<PlannedFile>,
    pub marker: String,
}

/// Whether a path leads to where one of the files goes.
pub open spec fn taken(files: Seq<EmbeddedFile>, path: Seq<char>, windows: bool) -> bool {
    exists|i: int|
        0 <= i < files.len() && components((#[trigger] files[i]).path@, windows) == components(path, windows)
}

/// What is said against the first file that cannot be installed.
pub open spec fn install_complaint(files: Seq<EmbeddedFile>, windows: bool) -> Option<Seq<char>>
    decreases files.len(),
{
    if files.len() == 0 {
        None
    } else if install_complaint(files.drop_last(), windows) is Some {
        install_complaint(files.drop_last(), windows)
    } else if !safe_path(files.last().path@, windows) {
        Some(unsafe_complaint(files.last().path@))
    } else if taken(files.drop_last(), files.last().path@, windows) {
        Some("duplicate embedded research path: "@ + files.last().path@)
    } else {
        None
    }
}

/// Whether a plan writes exactly those files.
pub open spec fn plans(plan: Seq<PlannedFile>, files: Seq<EmbeddedFile>, windows: bool) -> bool {
    &&& plan.len() == files.len()
    &&& forall|i: int|
        0 <= i < plan.len() ==> texts((#[trigger] plan[i]).components@) == components(
            files[i].path@,
            windows,
        ) && plan[i].path@ == files[i].path@ && plan[i].bytes@ == files[i].bytes@
}

fn same_parts(a: &Vec<String>, b: &Vec<String>) -> (r: bool)
    ensures
        r == (texts(a@) == texts(b@)),
{
    proof {
        assert(texts(a@).len() == a@.len() && texts(b@).len() == b@.len());
    }
    if a.len() != b.len() {
        return false;
    }
    let mut i: usize = 0;
    while i < a.len()
        invariant
            i <= a@.len(),
            a@.len() == b@.len(),
            forall|j: int| 0 <= j < i ==> (#[trigger] a@[j])@ == b@[j]@,
        decreases a@.len() - i,
    {
        if !same_text(a[i].as_str(), b[i].as_str()) {
            proof {
                assert(texts(a@)[i as int] != texts(b@)[i as int]);
            }
            return false;
        }
        i += 1;
    }
    assert(texts(a@) =~= texts(b@));
    true
}

proof fn lemma_complaint_stays(files: Seq<EmbeddedFile>, n: int, windows: bool)
    requires
        0 <= n <= files.len(),
        install_complaint(files.take(n), windows) is Some,
    ensures
        install_complaint(files, windows) == install_complaint(files.take(n), windows),
    decreases files.len() - n,
{
    if n < files.len() {
        assert(files.take(n + 1).drop_last() =~= files.take(n));
        lemma_complaint_stays(files, n + 1, windows);
    } else {
        assert(files.take(n) =~= files);
    }
}

/// Plans the installation of some files. It fails at the first path that is not safe, or that
/// leads to where an earlier file goes.
pub fn install_plan(files: &Vec<EmbeddedFile>, windows: bool) -> (r: Result<InstallPlan, Failure>)
    ensures
        crate::failure::said(r) == install_complaint(files@, windows),
        r matches Ok(plan) ==> plans(plan.files@, files@, windows) && plan.marker@ == digest_of(files@),
{
    let mut planned: Vec<PlannedFile> = Vec::new();
    let mut i: usize = 0;
    while i < files.len()
        invariant
            i <= files@.len(),
            install_complaint(files@.take(i as int), windows) is None,
            plans(planned@, files@.take(i as int), windows),
        decreases files@.len() - i,
    {
        let file: EmbeddedFile = files[i];
        let ghost next = files@.take(i + 1);
        proof {
            assert(next.drop_last() =~= files@.take(i as int));
            assert(next.last() == file);
        }
        let parts: Vec<String> = match safe_embedded_path(file.path, windows) {
            Ok(parts) => parts,
            Err(e) => {
                proof {
                    lemma_complaint_stays(files@, i + 1, windows);
                }
                return Err(e);
            },
        };
        let mut j: usize = 0;
        while j < planned.len()
            invariant
                i < files@.len(),
                j <= planned@.len(),
                plans(planned@, files@.take(i as int), windows),
                file == files@[i as int],
                safe_path(file.path@, windows),
                next == files@.take(i + 1),
                next.drop_last() == files@.take(i as int),
                next.last() == file,
                install_complaint(files@.take(i as int), windows) is None,
                texts(parts@) == components(file.path@, windows),
                forall|k: int|
                    0 <= k < j ==> components((#[trigger] files@.take(i as int)[k]).path@, windows)
                        != components(file.path@, windows),
            decreases planned@.len() - j,
        {
            if same_parts(&planned[j].components, &parts) {
                let mut message: String = "duplicate embedded research path: ".to_owned();
                message.append(file.path);
                proof {
                    let earlier = files@.take(i as int);
                    assert(texts(planned@[j as int].components@) == components(
                        earlier[j as int].path@,
                        windows,
                    ));
                    assert(taken(earlier, file.path@, windows));
                    lemma_complaint_stays(files@, i + 1, windows);
                }
                return Err(Failure { message: message });
            }
            proof {
                assert(texts(planned@[j as int].components@) == components(
                    files@.take(i as int)[j as int].path@,
                    windows,
                ));
            }
            j += 1;
        }
        let ghost before = planned@;
        planned.push(PlannedFile { path: file.path, components: parts, bytes: file.bytes });
        proof {
            assert(!taken(files@.take(i as int), file.path@, windows));
            assert forall|k: int| 0 <= k < planned@.len() implies texts(
                (#[trigger] planned@[k]).components@,
            ) == components(next[k].path@, windows) && planned@[k].path@ == next[k].path@ && planned@[k].bytes@
                == next[k].bytes@ by {
                if k < i {
                    assert(planned@[k] == before[k]);
                    assert(next[k] == files@.take(i as int)[k]);
                }
            }
        }
        i += 1;
    }
    assert(files@.take(files@.len() as int) =~= files@);
    Ok(InstallPlan { files: planned, marker: payload_digest(files) })
}

/// The name of the directory of a payload with that digest.
pub open spec fn destination_text(digest: Seq<char>) -> Seq<char> {
    PACKAGE_VERSION@ + "-"@ + digest
}

/// The name of a directory in which a process puts an installation together.
pub open spec fn staging_text(process: u32, random: Seq<char>) -> Seq<char> {
    ".install-"@ + decimal(process as nat) + "-"@ + random
}

/// The name of the directory of a payload.
pub fn destination_name(digest: &str) -> (r: String)
    ensures
        r@ == destination_text(digest@),
{
    let mut name: String = PACKAGE_VERSION.to_owned();
    name.append("-");
    name.append(digest);
    name
}

/// Where the engines are kept, below the directory of the data.
pub open spec fn store_place() -> Seq<Seq<char>> {
    seq!["research"@, "engine"@]
}

/// The way from the data directory to the directories of payloads.
pub fn store_parts() -> (r: Vec<&'static str>)
    ensures
        path_texts(r@) == seq!["research"@, "engine"@],
        path_texts(r@) == store_place(),
{
    let parts: Vec<&'static str> = vec!["research", "engine"];
    assert(path_texts(parts@) =~= seq!["research"@, "engine"@]);
    parts
}

/// The name of a directory in which a process puts an installation together.
pub fn staging_name(process: u32, random: &str) -> (r: String)
    ensures
        r@ == staging_text(process, random@),
{
    let mut name: String = ".install-".to_owned();
    name.append(decimal_text(process as u64).as_str());
    name.append("-");
    name.append(random);
    name
}

/// The name under which a file is written before it is moved into place.
pub open spec fn temporary_text(process: u32, random: Seq<char>) -> Seq<char> {
    ".write-"@ + decimal(process as nat) + "-"@ + random
}

/// The name under which a process writes a file before it moves it into place.
pub fn temporary_name(process: u32, random: &str) -> (r: String)
    ensures
        r@ == ".write-"@ + decimal(process as nat) + "-"@ + random@,
        r@ == temporary_text(process, random@),
{
    let mut name: String = ".write-".to_owned();
    name.append(decimal_text(process as u64).as_str());
    name.append("-");
    name.append(random);
    name
}

/// What was found in the directory of a payload.
#[derive(Debug, Clone, PartialEq, Eq)]
pub struct Found {
    /// Whether there is anything under the name of the directory.
    pub exists: bool,
    /// The contents of its marker, where there is one.
    pub marker: Option<String>,
    /// Of each file of the distribution, in order, whether it is there.
    pub present: Vec<bool>,
}

/// What was found in the directory of a payload.
pub struct FoundView {
    pub exists: bool,
    pub marker: Option<Seq<char>>,
    pub present: Seq<bool>,
}

impl View for Found {
    type V = FoundView;

    open spec fn view(&self) -> FoundView {
        FoundView {
            exists: self.exists,
            marker: opt_text(self.marker),
            present: self.present@,
        }
    }
}

/// Whether a directory holds a complete installation of some files: its marker holds their digest,
/// and every one of them is there.
pub open spec fn holds_payload(found: FoundView, files: Seq<EmbeddedFile>) -> bool {
    &&& found.marker == Some(digest_of(files))
    &&& found.present.len() == files.len()
    &&& forall|i: int| 0 <= i < found.present.len() ==> #[trigger] found.present[i]
}

/// Whether a directory holds a complete installation of some files.
pub fn valid_materialization(found: &Found, files: &Vec<EmbeddedFile>) -> (r: bool)
    ensures
        r == holds_payload(found@, files@),
{
    let marked: bool = match &found.marker {
        Some(text) => {
            let digest: String = payload_digest(files);
            same_text(text.as_str(), digest.as_str())
        },
        None => false,
    };
    if !marked || found.present.len() != files.len() {
        return false;
    }
    let mut i: usize = 0;
    while i < found.present.len()
        invariant
            i <= found.present@.len(),
            opt_text(found.marker) == Some(digest_of(files@)),
            found.present@.len() == files@.len(),
            forall|j: int| 0 <= j < i ==> #[trigger] found.present@[j],
        decreases found.present@.len() - i,
    {
        if !found.present[i] {
            assert(!found.present@[i as int]);
            return false;
        }
        i += 1;
    }
    true
}

/// What is to be done about the directory of a payload.
pub enum Materialization {
    /// It is complete: use it.
    Adopt,
    /// It is not there: carry out the plan in a directory of its own, and move that into place.
    Install(InstallPlan),
}

/// What is to be done about the directory of a payload.
pub enum Decision {
    Adopt,
    Install,
    Refuse(Seq<char>),
}

/// What is to be done about the directory of a payload, by what was found there.
pub open spec fn decision(
    found: FoundView,
    files: Seq<EmbeddedFile>,
    destination: Seq<char>,
    windows: bool,
) -> Decision {
    if holds_payload(found, files) {
        Decision::Adopt
    } else if found.exists {
        Decision::Refuse(
            "embedded research directory exists without its valid digest marker: "@ + destination,
        )
    } else {
        match install_complaint(files, windows) {
            Some(complaint) => Decision::Refuse(complaint),
            None => Decision::Install,
        }
    }
}

/// What is to be done about the directory of a payload, by what was found there. An incomplete
/// directory is never touched: it is refused.
pub fn materialize_embedded(
    files: &Vec<EmbeddedFile>,
    found: &Found,
    destination: &str,
    windows: bool,
) -> (r: Result<Materialization, Failure>)
    ensures
        match (r, decision(found@, files@, destination@, windows)) {
            (Ok(Materialization::Adopt), Decision::Adopt) => true,
            (Ok(Materialization::Install(plan)), Decision::Install) => plans(
                plan.files@,
                files@,
                windows,
            ) && plan.marker@ == digest_of(files@),
            (Err(e), Decision::Refuse(message)) => e@ == message,
            _ => false,
        },
{
    if valid_materialization(found, files) {
        return Ok(Materialization::Adopt);
    }
    if found.exists {
        let mut message: String =
            "embedded research directory exists without its valid digest marker: ".to_owned();
        message.append(destination);
        return Err(Failure { message: message });
    }
    match install_plan(files, windows) {
        Ok(plan) => Ok(Materialization::Install(plan)),
        Err(e) => Err(e),
    }
}

/// Whether the engine is in place after an attempt to move it there.
pub open spec fn published(files: Seq<EmbeddedFile>, moved: bool, found: FoundView) -> bool {
    moved || (found.exists && holds_payload(found, files))
}

/// The outcome of moving a finished installation into place. Where the move fails because another
/// process was first, its installation is used if it is complete. `found` is what is in the
/// directory after the move.
pub fn publish(files: &Vec<EmbeddedFile>, moved: bool, found: &Found, destination: &str) -> (r:
    Result<(), Failure>)
    ensures
        r is Ok <==> moved || (found.exists && holds_payload(found@, files@)),
        r matches Err(e) ==> e@ == "publishing embedded engine to "@ + destination@,
        r is Ok <==> published(files@, moved, found@),
{
    if moved || (found.exists && valid_materialization(found, files)) {
        Ok(())
    } else {
        let mut message: String = "publishing embedded engine to ".to_owned();
        message.append(destination);
        Err(Failure { message: message })
    }
}

proof fn lemma_segments_hold_no_separator(path: Seq<char>, i: int, k: int, windows: bool)
    requires
        0 <= i < segments(path, windows).len(),
        0 <= k < segments(path, windows)[i].len(),
    ensures
        segments(path, windows)[i][k] != '/',
        windows ==> segments(path, windows)[i][k] != '\\',
    decreases path.len(),
{
    lemma_segments_not_empty(path, windows);
    if path.len() > 0 {
        let before = segments(path.drop_last(), windows);
        lemma_segments_not_empty(path.drop_last(), windows);
        if separator(path.last(), windows) {
            if i < before.len() {
                lemma_segments_hold_no_separator(path.drop_last(), i, k, windows);
            }
        } else if i < before.len() - 1 {
            lemma_segments_hold_no_separator(path.drop_last(), i, k, windows);
        } else if k < before.last().len() {
            lemma_segments_hold_no_separator(path.drop_last(), before.len() - 1, k, windows);
        }
    }
}

proof fn lemma_naming_comes_from(parts: Seq<Seq<char>>, i: int) -> (j: int)
    requires
        0 <= i < naming(parts).len(),
    ensures
        0 <= j < parts.len(),
        naming(parts)[i] == parts[j],
        names_something(parts[j]),
    decreases parts.len(),
{
    if names_something(parts.last()) {
        if i == naming(parts.drop_last()).len() {
            parts.len() - 1
        } else {
            lemma_naming_comes_from(parts.drop_last(), i)
        }
    } else {
        lemma_naming_comes_from(parts.drop_last(), i)
    }
}

/// A safe path never leaves the directory that it is read in: each of its components is a plain
/// name, not empty, not the directory itself, not its parent, and without a separator.
pub proof fn law_safe_paths_stay_below(path: Seq<char>, i: int, windows: bool)
    requires
        safe_path(path, windows),
        0 <= i < components(path, windows).len(),
    ensures
        components(path, windows)[i].len() > 0,
        components(path, windows)[i] != "."@,
        components(path, windows)[i] != ".."@,
        forall|k: int|
            0 <= k < components(path, windows)[i].len() ==> #[trigger] components(path, windows)[i][k] != '/' && (
            windows ==> components(path, windows)[i][k] != '\\'),
        !anchored(path, windows),
{
    let j = lemma_naming_comes_from(segments(path, windows), i);
    assert(segments(path, windows)[j] != ".."@);
    assert forall|k: int| 0 <= k < components(path, windows)[i].len() implies #[trigger] components(
        path,
        windows,
    )[i][k] != '/' && (windows ==> components(path, windows)[i][k] != '\\') by {
        lemma_segments_hold_no_separator(path, j, k, windows);
    }
}

/// The path of some segments.
pub open spec fn joined(parts: Seq<Seq<char>>) -> Seq<char>
    decreases parts.len(),
{
    if parts.len() == 0 {
        Seq::empty()
    } else if parts.len() == 1 {
        parts[0]
    } else {
        joined(parts.drop_last()) + seq!['/'] + parts.last()
    }
}

/// The segments of a path make the path again, where it is written with forward slashes.
pub proof fn law_segments_join_back(path: Seq<char>, windows: bool)
    requires
        windows ==> forall|i: int| 0 <= i < path.len() ==> #[trigger] path[i] != '\\',
    ensures
        joined(segments(path, windows)) == path,
    decreases path.len(),
{
    if path.len() > 0 {
        let front = path.drop_last();
        let before = segments(front, windows);
        lemma_segments_not_empty(front, windows);
        law_segments_join_back(front, windows);
        let parts = segments(path, windows);
        if separator(path.last(), windows) {
            assert(parts.drop_last() =~= before);
            assert(joined(parts) =~= front.push('/'));
        } else {
            assert(parts.drop_last() =~= before.drop_last());
            if before.len() == 1 {
                assert(joined(parts) =~= front.push(path.last()));
            } else {
                assert(joined(parts) =~= joined(before).push(path.last()));
            }
        }
        assert(front.push(path.last()) =~= path);
    } else {
        assert(joined(segments(path, windows)) =~= path);
    }
}

/// Whether a path is written plainly: every segment of it is a name that begins with no dot, and
/// there is no backslash and no drive in it.
pub open spec fn plain_path(path: Seq<char>) -> bool {
    &&& path.len() > 0
    &&& !drive_prefix(path)
    &&& forall|i: int| 0 <= i < path.len() ==> #[trigger] path[i] != '\\'
    &&& path[0] != '/' && path[0] != '.'
    &&& path.last() != '/'
    &&& forall|i: int|
        0 <= i < path.len() - 1 ==> (#[trigger] path[i] == '/' ==> path[i + 1] != '/' && path[i
            + 1] != '.')
}

proof fn lemma_plain_segments(path: Seq<char>, i: int, windows: bool)
    requires
        path.len() > 0 ==> path[0] != '/' && path[0] != '.',
        forall|j: int| 0 <= j < path.len() ==> #[trigger] path[j] != '\\',
        forall|j: int|
            0 <= j < path.len() - 1 ==> (#[trigger] path[j] == '/' ==> path[j + 1] != '/' && path[j
                + 1] != '.'),
        0 <= i < segments(path, windows).len(),
    ensures
        segments(path, windows)[i].len() > 0 ==> segments(path, windows)[i][0] != '.',
        segments(path, windows)[i].len() == 0 ==> i == segments(path, windows).len() - 1 && (path.len() == 0
            || path.last() == '/'),
    decreases path.len(),
{
    if path.len() > 0 {
        let front = path.drop_last();
        let before = segments(front, windows);
        lemma_segments_not_empty(front, windows);
        let last = before.len() - 1;
        if separator(path.last(), windows) {
            if i < before.len() {
                lemma_plain_segments(front, i, windows);
                if before[i].len() == 0 {
                    if front.len() > 0 {
                        assert(path[front.len() - 1] == front.last());
                    }
                }
            }
        } else if i < last {
            lemma_plain_segments(front, i, windows);
        } else {
            lemma_plain_segments(front, last, windows);
            if before[last].len() == 0 {
                if front.len() > 0 {
                    assert(path[front.len() - 1] == front.last());
                }
            }
        }
    }
}

proof fn lemma_naming_keeps_all(parts: Seq<Seq<char>>)
    requires
        forall|i: int| 0 <= i < parts.len() ==> names_something(#[trigger] parts[i]),
    ensures
        naming(parts) == parts,
    decreases parts.len(),
{
    if parts.len() > 0 {
        lemma_naming_keeps_all(parts.drop_last());
        assert(naming(parts) =~= parts);
    } else {
        assert(naming(parts) =~= parts);
    }
}

/// A plainly written path is safe, and its segments are its components.
pub proof fn law_plain_paths_are_safe(path: Seq<char>, windows: bool)
    requires
        plain_path(path),
    ensures
        safe_path(path, windows),
        components(path, windows) == segments(path, windows),
{
    reveal_strlit(".");
    reveal_strlit("..");
    lemma_segments_not_empty(path, windows);
    let parts = segments(path, windows);
    assert forall|i: int| 0 <= i < parts.len() implies names_something(#[trigger] parts[i])
        && parts[i] != ".."@ by {
        lemma_plain_segments(path, i, windows);
        assert("."@[0] == '.' && ".."@[0] == '.');
    }
    lemma_naming_keeps_all(parts);
}

proof fn lemma_inventory_is_plain(i: int)
    requires
        0 <= i < inventory().len(),
    ensures
        plain_path(inventory()[i]),
{
    reveal_strlit("pyproject.toml");
    reveal_strlit("ryu_research/__init__.py");
    reveal_strlit("ryu_research/__main__.py");
    reveal_strlit("ryu_research/server.py");
    reveal_strlit("ryu_research/experiments.py");
    reveal_strlit("ryu_research/campaigns.py");
    reveal_strlit("ryu_research/workspaces.py");
    reveal_strlit("experiments/toy/experiment.toml");
    reveal_strlit("experiments/toy/program.md");
    reveal_strlit("experiments/toy/train.py");
    reveal_strlit("experiments/nanochat/experiment.toml");
    reveal_strlit("experiments/nanochat/program.md");
    reveal_strlit("experiments/nanochat/prepare.py");
    reveal_strlit("experiments/nanochat/train.py");
    let path = inventory()[i];
    assert(path.len() > 0);
}

proof fn lemma_inventory_differs(i: int, j: int)
    requires
        0 <= i < j < inventory().len(),
    ensures
        inventory()[i] != inventory()[j],
{
    reveal_strlit("pyproject.toml");
    reveal_strlit("ryu_research/__init__.py");
    reveal_strlit("ryu_research/__main__.py");
    reveal_strlit("ryu_research/server.py");
    reveal_strlit("ryu_research/experiments.py");
    reveal_strlit("ryu_research/campaigns.py");
    reveal_strlit("ryu_research/workspaces.py");
    reveal_strlit("experiments/toy/experiment.toml");
    reveal_strlit("experiments/toy/program.md");
    reveal_strlit("experiments/toy/train.py");
    reveal_strlit("experiments/nanochat/experiment.toml");
    reveal_strlit("experiments/nanochat/program.md");
    reveal_strlit("experiments/nanochat/prepare.py");
    reveal_strlit("experiments/nanochat/train.py");
    let paths = inventory();
    assert(paths[0].len() == 14);
    assert(paths[1].len() == 24 && paths[1][15] == 'i');
    assert(paths[2].len() == 24 && paths[2][15] == 'm');
    assert(paths[3].len() == 22);
    assert(paths[4].len() == 27);
    assert(paths[5].len() == 25);
    assert(paths[6].len() == 26 && paths[6][15] == 'r');
    assert(paths[7].len() == 31 && paths[7][15] == '/' && paths[7][23] == 'e');
    assert(paths[8].len() == 26 && paths[8][15] == '/');
    assert(paths[9].len() == 24 && paths[9][15] == '/');
    assert(paths[10].len() == 36);
    assert(paths[11].len() == 31 && paths[11][15] == 'o' && paths[11][23] == 'o');
    assert(paths[12].len() == 31 && paths[12][15] == 'o' && paths[12][23] == 'e');
    assert(paths[13].len() == 29);
}

/// The paths of the engine distribution are safe, and no two of them lead to one place.
pub proof fn law_inventory_is_unique_and_traversal_free(i: int, j: int, windows: bool)
    requires
        0 <= i < inventory().len(),
        0 <= j < inventory().len(),
    ensures
        safe_path(inventory()[i], windows),
        i != j ==> components(inventory()[i], windows) != components(inventory()[j], windows),
{
    lemma_inventory_is_plain(i);
    lemma_inventory_is_plain(j);
    law_plain_paths_are_safe(inventory()[i], windows);
    law_plain_paths_are_safe(inventory()[j], windows);
    law_segments_join_back(inventory()[i], windows);
    law_segments_join_back(inventory()[j], windows);
    if i < j {
        lemma_inventory_differs(i, j);
    } else if j < i {
        lemma_inventory_differs(j, i);
    }
}

proof fn lemma_distribution_installs(files: Seq<EmbeddedFile>, n: int, windows: bool)
    requires
        complete(files),
        0 <= n <= files.len(),
    ensures
        install_complaint(files.take(n), windows) is None,
    decreases n,
{
    if n > 0 {
        lemma_distribution_installs(files, n - 1, windows);
        let some = files.take(n);
        assert(some.drop_last() =~= files.take(n - 1));
        let path = some.last().path@;
        assert(path == file_paths(files)[n - 1]);
        law_inventory_is_unique_and_traversal_free(n - 1, n - 1, windows);
        assert forall|k: int| 0 <= k < n - 1 implies components(
            (#[trigger] files.take(n - 1)[k]).path@,
            windows,
        ) != components(path, windows) by {
            assert(files.take(n - 1)[k].path@ == file_paths(files)[k]);
            law_inventory_is_unique_and_traversal_free(k, n - 1, windows);
        }
        assert(!taken(some.drop_last(), path, windows));
    }
}

/// Nothing is ever said against installing the engine distribution.
pub proof fn law_the_distribution_installs(files: Seq<EmbeddedFile>, windows: bool)
    requires
        complete(files),
    ensures
        install_complaint(files, windows) is None,
{
    lemma_distribution_installs(files, files.len() as int, windows);
    assert(files.take(files.len() as int) =~= files);
}

/// The contents of a directory: the bytes of each file, under the components of its path.
pub type Contents = Map<Seq<Seq<char>>, Seq<u8>>;

/// Where the marker goes.
pub open spec fn marker_place() -> Seq<Seq<char>> {
    seq![DIGEST_MARKER@]
}

/// A directory into which some files were written, one after the other.
pub open spec fn files_written(files: Seq<EmbeddedFile>, windows: bool) -> Contents
    decreases files.len(),
{
    if files.len() == 0 {
        Map::empty()
    } else {
        files_written(files.drop_last(), windows).insert(
            components(files.last().path@, windows),
            files.last().bytes@,
        )
    }
}

/// A directory into which the files of a plan were written, one after the other.
pub open spec fn planned_written(planned: Seq<PlannedFile>) -> Contents
    decreases planned.len(),
{
    if planned.len() == 0 {
        Map::empty()
    } else {
        planned_written(planned.drop_last()).insert(
            texts(planned.last().components@),
            planned.last().bytes@,
        )
    }
}

/// A directory in which a plan was carried out: the files, and then the marker.
pub open spec fn carried_out(plan: InstallPlan) -> Contents {
    planned_written(plan.files@).insert(marker_place(), encode_utf8(plan.marker@))
}

/// A directory in which some files are installed.
pub open spec fn installed(files: Seq<EmbeddedFile>, windows: bool) -> Contents {
    files_written(files, windows).insert(marker_place(), encode_utf8(digest_of(files)))
}

/// What is found where a directory is, or is not.
pub open spec fn observed(
    directory: Option<Contents>,
    files: Seq<EmbeddedFile>,
    windows: bool,
) -> FoundView {
    FoundView {
        exists: directory is Some,
        marker: match directory {
            Some(contents) if contents.contains_key(marker_place()) && valid_utf8(
                contents[marker_place()],
            ) => Some(decode_utf8(contents[marker_place()])),
            _ => None,
        },
        present: Seq::new(
            files.len(),
            |i: int|
                directory is Some && directory->0.contains_key(components(files[i].path@, windows)),
        ),
    }
}

/// The directories of payloads, by their names.
pub type Store = Map<Seq<char>, Contents>;

/// The directory of some files.
pub open spec fn directory_of(store: Store, files: Seq<EmbeddedFile>) -> Option<Contents> {
    if store.contains_key(destination_text(digest_of(files))) {
        Some(store[destination_text(digest_of(files))])
    } else {
        None
    }
}

/// What is to be done about the directory of some files in a store.
pub open spec fn store_decision(
    store: Store,
    files: Seq<EmbeddedFile>,
    windows: bool,
) -> Decision {
    decision(
        observed(directory_of(store, files), files, windows),
        files,
        destination_text(digest_of(files)),
        windows,
    )
}

/// The store after that is done and no other process interferes. An installation is put together
/// under a name of its own, and then moved into place.
pub open spec fn store_after(
    store: Store,
    staging: Seq<char>,
    files: Seq<EmbeddedFile>,
    windows: bool,
) -> Store {
    match store_decision(store, files, windows) {
        Decision::Install => store.insert(staging, installed(files, windows)).remove(
            staging,
        ).insert(destination_text(digest_of(files)), installed(files, windows)),
        _ => store,
    }
}

/// Carrying out a plan for some files installs them.
pub proof fn law_a_carried_out_plan_installs_the_files(
    plan: InstallPlan,
    files: Seq<EmbeddedFile>,
    windows: bool,
)
    requires
        plans(plan.files@, files, windows),
        plan.marker@ == digest_of(files),
    ensures
        carried_out(plan) == installed(files, windows),
{
    lemma_planned_written(plan.files@, files, windows, files.len() as int);
    assert(files.take(files.len() as int) =~= files);
    assert(plan.files@.take(files.len() as int) =~= plan.files@);
}

proof fn lemma_planned_written(
    planned: Seq<PlannedFile>,
    files: Seq<EmbeddedFile>,
    windows: bool,
    n: int,
)
    requires
        plans(planned, files, windows),
        0 <= n <= files.len(),
    ensures
        planned_written(planned.take(n)) == files_written(files.take(n), windows),
    decreases n,
{
    if n > 0 {
        lemma_planned_written(planned, files, windows, n - 1);
        assert(planned.take(n).drop_last() =~= planned.take(n - 1));
        assert(files.take(n).drop_last() =~= files.take(n - 1));
        assert(planned.take(n).last() == planned[n - 1]);
        assert(files.take(n).last() == files[n - 1]);
    }
}

proof fn lemma_files_written(files: Seq<EmbeddedFile>, windows: bool, n: int, i: int)
    requires
        complete(files),
        0 <= i < n <= files.len(),
    ensures
        files_written(files.take(n), windows).contains_key(components(files[i].path@, windows)),
        files_written(files.take(n), windows)[components(files[i].path@, windows)]
            == files[i].bytes@,
    decreases n,
{
    assert(files.take(n).drop_last() =~= files.take(n - 1));
    assert(files.take(n).last() == files[n - 1]);
    if i < n - 1 {
        lemma_files_written(files, windows, n - 1, i);
        assert(files[i].path@ == file_paths(files)[i]);
        assert(files[n - 1].path@ == file_paths(files)[n - 1]);
        law_inventory_is_unique_and_traversal_free(i, n - 1, windows);
    }
}

proof fn lemma_marker_is_apart(files: Seq<EmbeddedFile>, windows: bool, i: int)
    requires
        complete(files),
        0 <= i < files.len(),
    ensures
        components(files[i].path@, windows) != marker_place(),
{
    reveal_strlit(".embedded-digest");
    let path = files[i].path@;
    assert(path == file_paths(files)[i]);
    lemma_inventory_is_plain(i);
    law_plain_paths_are_safe(path, windows);
    lemma_segments_not_empty(path, windows);
    lemma_plain_segments(path, 0, windows);
    assert(marker_place()[0][0] == '.');
    assert(marker_place()[0].len() > 0);
}

/// An installation of the engine distribution holds, under the path of each file, exactly its bytes,
/// and under the marker the digest; and it is found complete.
pub proof fn law_an_installation_is_complete(files: Seq<EmbeddedFile>, windows: bool)
    requires
        complete(files),
    ensures
        forall|i: int|
            0 <= i < files.len() ==> {
                let place = components((#[trigger] files[i]).path@, windows);
                &&& installed(files, windows).contains_key(place)
                &&& installed(files, windows)[place] == files[i].bytes@
            },
        installed(files, windows).contains_key(marker_place()),
        installed(files, windows)[marker_place()] == encode_utf8(digest_of(files)),
        holds_payload(observed(Some(installed(files, windows)), files, windows), files),
{
    let contents = installed(files, windows);
    assert(files.take(files.len() as int) =~= files);
    assert forall|i: int| 0 <= i < files.len() implies {
        let place = components((#[trigger] files[i]).path@, windows);
        &&& contents.contains_key(place)
        &&& contents[place] == files[i].bytes@
    } by {
        lemma_files_written(files, windows, files.len() as int, i);
        lemma_marker_is_apart(files, windows, i);
    }
    encode_utf8_valid_utf8(digest_of(files));
    encode_utf8_decode_utf8(digest_of(files));
    let found = observed(Some(contents), files, windows);
    assert forall|i: int| 0 <= i < found.present.len() implies #[trigger] found.present[i] by {
        assert(contents.contains_key(components(files[i].path@, windows)));
    }
}

proof fn lemma_staging_is_apart(process: u32, random: Seq<char>, digest: Seq<char>)
    ensures
        staging_text(process, random) != destination_text(digest),
{
    reveal_strlit(".install-");
    reveal_strlit("0.3.0");
    assert(staging_text(process, random)[0] == '.');
    assert(destination_text(digest)[0] == '0');
}

/// Materializing the engine distribution where its directory is not there yet publishes the complete
/// installation under the name of its digest, leaves no directory of the installing behind, and
/// touches no other directory.
pub proof fn law_materializing_publishes_the_payload(
    store: Store,
    process: u32,
    random: Seq<char>,
    files: Seq<EmbeddedFile>,
    windows: bool,
)
    requires
        complete(files),
        directory_of(store, files) is None,
        !store.contains_key(staging_text(process, random)),
    ensures
        store_decision(store, files, windows) is Install,
        store_after(store, staging_text(process, random), files, windows) == store.insert(
            destination_text(digest_of(files)),
            installed(files, windows),
        ),
        !store_after(store, staging_text(process, random), files, windows).contains_key(
            staging_text(process, random),
        ),
{
    law_the_distribution_installs(files, windows);
    lemma_staging_is_apart(process, random, digest_of(files));
    let staging = staging_text(process, random);
    let name = destination_text(digest_of(files));
    assert(store.insert(staging, installed(files, windows)).remove(staging) =~= store);
    assert(store_after(store, staging, files, windows) == store.insert(
        name,
        installed(files, windows),
    ));
}

/// Materializing the engine distribution a second time adopts what the first time published, and
/// rewrites nothing.
pub proof fn law_materializing_is_idempotent(
    store: Store,
    first: Seq<char>,
    second: Seq<char>,
    files: Seq<EmbeddedFile>,
    windows: bool,
)
    requires
        complete(files),
        !(store_decision(store, files, windows) is Refuse),
    ensures
        ({
            let published = store_after(store, first, files, windows);
            &&& store_decision(published, files, windows) is Adopt
            &&& store_after(published, second, files, windows) == published
        }),
{
    if store_decision(store, files, windows) is Install {
        law_an_installation_is_complete(files, windows);
        let published = store_after(store, first, files, windows);
        assert(directory_of(published, files) == Some(installed(files, windows)));
    }
}

/// A directory that is there but not complete is refused, and left as it was with all others.
pub proof fn law_incomplete_directories_are_left(
    store: Store,
    staging: Seq<char>,
    files: Seq<EmbeddedFile>,
    windows: bool,
)
    requires
        directory_of(store, files) is Some,
        !holds_payload(observed(directory_of(store, files), files, windows), files),
    ensures
        store_decision(store, files, windows) is Refuse,
        store_after(store, staging, files, windows) == store,
{
}

/// The distribution is the engine's package, its project file and the files of the two experiments.
pub proof fn law_the_distribution_is_the_engine_and_its_experiments()
    ensures
        inventory().len() == 14,
        inventory()[0] == "pyproject.toml"@,
        inventory()[1] == "ryu_research/__init__.py"@,
        inventory()[2] == "ryu_research/__main__.py"@,
        inventory()[3] == "ryu_research/server.py"@,
        inventory()[4] == "ryu_research/experiments.py"@,
        inventory()[5] == "ryu_research/campaigns.py"@,
        inventory()[6] == "ryu_research/workspaces.py"@,
        inventory()[7] == "experiments/toy/experiment.toml"@,
        inventory()[8] == "experiments/toy/program.md"@,
        inventory()[9] == "experiments/toy/train.py"@,
        inventory()[10] == "experiments/nanochat/experiment.toml"@,
        inventory()[11] == "experiments/nanochat/program.md"@,
        inventory()[12] == "experiments/nanochat/prepare.py"@,
        inventory()[13] == "experiments/nanochat/train.py"@,
{
}

/// The payload of one more file is the payload so far and then, each after its length in eight bytes,
/// the path and the contents of that file.
pub proof fn law_payloads_grow_by_one_frame(files: Seq<EmbeddedFile>, file: EmbeddedFile)
    ensures
        payload(Seq::<EmbeddedFile>::empty()) == Seq::<u8>::empty(),
        payload(files.push(file)) == payload(files) + spec_u64_to_le_bytes(
            encode_utf8(file.path@).len() as u64,
        ) + encode_utf8(file.path@) + spec_u64_to_le_bytes(file.bytes@.len() as u64) + file.bytes@,
        digest_of(files) == hex_text(sha256(payload(files))),
{
    assert(files.push(file).drop_last() =~= files);
    assert(payload(files.push(file)) =~= payload(files) + spec_u64_to_le_bytes(
        encode_utf8(file.path@).len() as u64,
    ) + encode_utf8(file.path@) + spec_u64_to_le_bytes(file.bytes@.len() as u64) + file.bytes@);
}

/// Bytes are spelled one after the other, each by two hexadecimal digits in lower case, the higher one
/// first.
pub proof fn law_bytes_are_spelled_in_two_digits(a: Seq<u8>, b: Seq<u8>, byte: u8)
    ensures
        hex_text(a + b) == hex_text(a) + hex_text(b),
        ({
            let pair = hex_text(seq![byte]);
            &&& pair.len() == 2
            &&& ('0' <= pair[0] <= '9' && pair[0] as int - '0' as int == byte as int / 16) || ('a'
                <= pair[0] <= 'f' && pair[0] as int - 'a' as int + 10 == byte as int / 16)
            &&& ('0' <= pair[1] <= '9' && pair[1] as int - '0' as int == byte as int % 16) || ('a'
                <= pair[1] <= 'f' && pair[1] as int - 'a' as int + 10 == byte as int % 16)
        }),
{
    assert forall|i: int| 0 <= i < 2 * (a + b).len() implies #[trigger] hex_text(a + b)[i] == (
    hex_text(a) + hex_text(b))[i] by {
        if i < 2 * a.len() {
            assert((a + b)[i / 2] == a[i / 2]);
        } else {
            let k = i - 2 * a.len();
            assert(k / 2 == i / 2 - a.len() && k % 2 == i % 2);
            assert((a + b)[i / 2] == b[k / 2]);
        }
    }
    assert(hex_text(a + b) =~= hex_text(a) + hex_text(b));
}

proof fn lemma_split_at_separator(a: Seq<char>, c: char, b: Seq<char>, windows: bool)
    requires
        c == '/' || (windows && c == '\\'),
    ensures
        segments(a + seq![c] + b, windows) == segments(a, windows) + segments(b, windows),
    decreases b.len(),
{
    let whole = a + seq![c] + b;
    lemma_segments_not_empty(b, windows);
    if b.len() == 0 {
        assert(whole.drop_last() =~= a);
        assert(segments(whole, windows) =~= segments(a, windows) + segments(b, windows));
    } else {
        assert(whole.drop_last() =~= a + seq![c] + b.drop_last());
        assert(whole.last() == b.last());
        lemma_split_at_separator(a, c, b.drop_last(), windows);
        lemma_segments_not_empty(b.drop_last(), windows);
        let front = segments(a, windows);
        let back = segments(b.drop_last(), windows);
        assert((front + back).last() == back.last());
        assert((front + back).drop_last() =~= front + back.drop_last());
        assert(segments(whole, windows) =~= front + segments(b, windows));
    }
}

/// A path falls apart at its separators and nowhere else: `/` everywhere, and on Windows `\` too.
pub proof fn law_paths_fall_apart_at_separators(
    a: Seq<char>,
    c: char,
    b: Seq<char>,
    plain: Seq<char>,
    windows: bool,
)
    requires
        c == '/' || (windows && c == '\\'),
        forall|i: int|
            0 <= i < plain.len() ==> #[trigger] plain[i] != '/' && !(windows && plain[i] == '\\'),
    ensures
        segments(a + seq![c] + b, windows) == segments(a, windows) + segments(b, windows),
        segments(plain, windows) == seq![plain],
    decreases plain.len(),
{
    lemma_split_at_separator(a, c, b, windows);
    if plain.len() > 0 {
        assert forall|i: int| 0 <= i < plain.drop_last().len() implies #[trigger] plain.drop_last()[i]
            != '/' && !(windows && plain.drop_last()[i] == '\\') by {
            assert(plain.drop_last()[i] == plain[i]);
        }
        law_paths_fall_apart_at_separators(a, c, b, plain.drop_last(), windows);
        assert(plain[plain.len() - 1] == plain.last());
        assert(plain.drop_last().push(plain.last()) =~= plain);
        assert(segments(plain, windows) =~= seq![plain]);
    } else {
        assert(plain =~= Seq::<char>::empty());
    }
}

proof fn lemma_naming_goes_part_by_part(a: Seq<Seq<char>>, b: Seq<Seq<char>>)
    ensures
        naming(a + b) == naming(a) + naming(b),
    decreases b.len(),
{
    if b.len() == 0 {
        assert(a + b =~= a);
        assert(naming(a + b) =~= naming(a) + naming(b));
    } else {
        assert((a + b).drop_last() =~= a + b.drop_last());
        assert((a + b).last() == b.last());
        lemma_naming_goes_part_by_part(a, b.drop_last());
        assert(naming(a + b) =~= naming(a) + naming(b));
    }
}

/// The parts of a path are the parts of what stands before a separator and then of what stands behind
/// it. A name is its own part; nothing, and a single dot, are none.
pub proof fn law_parts_follow_the_separators(
    a: Seq<char>,
    c: char,
    b: Seq<char>,
    name: Seq<char>,
    windows: bool,
)
    requires
        c == '/' || (windows && c == '\\'),
        forall|i: int|
            0 <= i < name.len() ==> #[trigger] name[i] != '/' && !(windows && name[i] == '\\'),
    ensures
        components(a + seq![c] + b, windows) == components(a, windows) + components(b, windows),
        components(name, windows) == (if name == Seq::<char>::empty() || name == "."@ {
            Seq::<Seq<char>>::empty()
        } else {
            seq![name]
        }),
{
    law_paths_fall_apart_at_separators(a, c, b, name, windows);
    lemma_naming_goes_part_by_part(segments(a, windows), segments(b, windows));
    assert(seq![name].drop_last() =~= Seq::<Seq<char>>::empty());
    assert(naming(Seq::<Seq<char>>::empty()) =~= Seq::<Seq<char>>::empty());
    if name.len() == 0 {
        assert(name =~= Seq::<char>::empty());
    }
    assert(naming(seq![name]) =~= (if name == Seq::<char>::empty() || name == "."@ {
        Seq::<Seq<char>>::empty()
    } else {
        seq![name]
    }));
}

/// A bare name is safe unless it is a dot or two, or on Windows begins with a drive. A path that goes
/// on below another is safe exactly where that one is and it never climbs; one that begins with a
/// separator never is.
pub proof fn law_safety_goes_down_the_path(
    a: Seq<char>,
    c: char,
    b: Seq<char>,
    name: Seq<char>,
    windows: bool,
)
    requires
        c == '/' || (windows && c == '\\'),
        forall|i: int|
            0 <= i < name.len() ==> #[trigger] name[i] != '/' && !(windows && name[i] == '\\'),
    ensures
        !safe_path(seq![c] + b, windows),
        a.len() > 0 ==> (safe_path(a + seq![c] + b, windows) <==> safe_path(a, windows)
            && !segments(b, windows).contains(".."@)),
        safe_path(name, windows) <==> name != "."@ && name != ".."@ && !(windows && name.len() >= 2
            && (('a' <= name[0] <= 'z') || ('A' <= name[0] <= 'Z')) && name[1] == ':'),
{
    law_paths_fall_apart_at_separators(a, c, b, name, windows);
    assert((seq![c] + b)[0] == c);
    let below = a + seq![c] + b;
    let front = segments(a, windows);
    let back = segments(b, windows);
    lemma_segments_not_empty(a, windows);
    if a.len() > 0 {
        assert(below[0] == a[0]);
        if a.len() >= 2 {
            assert(below[1] == a[1]);
        } else {
            assert(below[1] == c);
        }
        assert(segments(below, windows) == front + back);
        assert(segments(below, windows)[0] == front[0]);
        if safe_path(below, windows) {
            assert forall|i: int| 0 <= i < front.len() implies #[trigger] front[i] != ".."@ by {
                assert(segments(below, windows)[i] == front[i]);
            }
            assert forall|i: int| 0 <= i < back.len() implies #[trigger] back[i] != ".."@ by {
                assert(segments(below, windows)[front.len() + i] == back[i]);
            }
        }
        if safe_path(a, windows) && !back.contains(".."@) {
            assert forall|i: int| 0 <= i < segments(below, windows).len() implies
                #[trigger] segments(below, windows)[i] != ".."@ by {
                if i < front.len() {
                    assert(segments(a, windows)[i] == segments(below, windows)[i]);
                } else {
                    assert(back[i - front.len()] == segments(below, windows)[i]);
                }
            }
        }
    }
    assert(segments(name, windows)[0] == name);
    assert(segments(name, windows).len() == 1);
    if name.len() > 0 {
        assert(name[0] != '/' && !(windows && name[0] == '\\'));
    }
}

/// Files can be installed exactly where every path is safe and no two of them lead to the same place.
pub proof fn law_sound_files_are_installed(files: Seq<EmbeddedFile>, windows: bool)
    ensures
        install_complaint(files, windows) is None <==> {
            &&& forall|i: int| 0 <= i < files.len() ==> safe_path((#[trigger] files[i]).path@, windows)
            &&& forall|i: int, j: int|
                0 <= i < j < files.len() ==> components((#[trigger] files[i]).path@, windows)
                    != components((#[trigger] files[j]).path@, windows)
        },
    decreases files.len(),
{
    if files.len() > 0 {
        let before = files.drop_last();
        let last = files.last();
        law_sound_files_are_installed(before, windows);
        assert forall|i: int| 0 <= i < before.len() implies #[trigger] before[i] == files[i] by {
        }
        assert(files[files.len() - 1] == last);
        if install_complaint(files, windows) is None {
            assert forall|i: int| 0 <= i < files.len() implies safe_path(
                (#[trigger] files[i]).path@,
                windows,
            ) by {
                if i < before.len() {
                    assert(before[i] == files[i]);
                }
            }
            assert forall|i: int, j: int| 0 <= i < j < files.len() implies components(
                (#[trigger] files[i]).path@,
                windows,
            ) != components((#[trigger] files[j]).path@, windows) by {
                assert(before[i] == files[i]);
                if j < before.len() {
                    assert(before[j] == files[j]);
                }
            }
        } else {
            if install_complaint(before, windows) is Some {
                if forall|i: int| 0 <= i < before.len() ==> safe_path((#[trigger] before[i]).path@, windows)
                {
                    let (i, j) = choose|i: int, j: int|
                        0 <= i < j < before.len() && components((#[trigger] before[i]).path@, windows)
                            == components((#[trigger] before[j]).path@, windows);
                    assert(before[i] == files[i] && before[j] == files[j]);
                } else {
                    let i = choose|i: int|
                        0 <= i < before.len() && !safe_path((#[trigger] before[i]).path@, windows);
                    assert(before[i] == files[i]);
                }
            } else if safe_path(last.path@, windows) {
                let i = choose|i: int|
                    0 <= i < before.len() && components((#[trigger] before[i]).path@, windows)
                        == components(last.path@, windows);
                assert(before[i] == files[i]);
                assert(i < files.len() - 1);
            }
        }
    }
}

/// Of files that cannot be installed the first that is at fault is named: as unsafe, or as a second one
/// at its place.
pub proof fn law_the_first_fault_is_named(files: Seq<EmbeddedFile>, n: int, windows: bool)
    requires
        0 <= n < files.len(),
        install_complaint(files.take(n), windows) is None,
        install_complaint(files.take(n + 1), windows) is Some,
    ensures
        !safe_path(files[n].path@, windows) ==> install_complaint(files, windows) == Some(
            "unsafe embedded research path: "@ + files[n].path@,
        ),
        safe_path(files[n].path@, windows) ==> install_complaint(files, windows) == Some(
            "duplicate embedded research path: "@ + files[n].path@,
        ),
    decreases files.len(),
{
    if n + 1 == files.len() {
        assert(files.take(n + 1) =~= files);
        assert(files.take(n) =~= files.drop_last());
    } else {
        assert(files.drop_last().take(n) =~= files.take(n));
        assert(files.drop_last().take(n + 1) =~= files.take(n + 1));
        law_the_first_fault_is_named(files.drop_last(), n, windows);
    }
}

/// A directory is complete exactly where its marker is the digest of the files and each of them is
/// there, looked at one by one.
pub proof fn law_complete_directories_are_adopted(
    found: FoundView,
    files: Seq<EmbeddedFile>,
    destination: Seq<char>,
    windows: bool,
)
    ensures
        holds_payload(found, files) <==> found.marker == Some(hex_text(sha256(payload(files))))
            && found.present == Seq::new(files.len(), |i: int| true),
        decision(found, files, destination, windows) is Adopt <==> holds_payload(found, files),
        decision(found, files, destination, windows) is Install <==> !holds_payload(found, files)
            && !found.exists && install_complaint(files, windows) is None,
        !holds_payload(found, files) && found.exists ==> decision(found, files, destination, windows)
            == Decision::Refuse(
            "embedded research directory exists without its valid digest marker: "@ + destination,
        ),
        !holds_payload(found, files) && !found.exists ==> (install_complaint(files, windows)
            matches Some(complaint) ==> decision(found, files, destination, windows)
            == Decision::Refuse(complaint)),
{
    if holds_payload(found, files) {
        assert(found.present =~= Seq::new(files.len(), |i: int| true));
    }
}

/// A directory of the store is named by the version and the digest; one in which an installation is
/// prepared by its process and what was drawn at random.
pub proof fn law_directories_are_named_by_their_contents(
    digest: Seq<char>,
    process: u32,
    random: Seq<char>,
)
    ensures
        destination_text(digest) == "0.3.0-"@ + digest,
        staging_text(process, random) == ".install-"@ + decimal(process as nat) + "-"@ + random,
{
    reveal_strlit("0.3.0");
    reveal_strlit("-");
    reveal_strlit("0.3.0-");
    assert("0.3.0"@ + "-"@ =~= "0.3.0-"@);
}

/// The engine is in place where it was moved there, and where another process was first with the same
/// files; an incomplete directory in its place is never taken for it.
pub proof fn law_the_engine_is_published_once(files: Seq<EmbeddedFile>, found: FoundView)
    ensures
        published(files, true, found),
        published(files, false, found) <==> found.exists && found.marker == Some(
            hex_text(sha256(payload(files))),
        ) && found.present == Seq::new(files.len(), |i: int| true),
{
    law_complete_directories_are_adopted(found, files, Seq::empty(), false);
}

/// The marker of an installation stands at its top, under its own name.
pub proof fn law_the_marker_stands_at_the_top()
    ensures
        DIGEST_MARKER@ == ".embedded-digest"@,
        marker_place() == seq![".embedded-digest"@],
{
}

/// A plan writes each file, in order, with its own bytes, at the parts of its own path.
pub proof fn law_plans_hold_every_file(
    plan: Seq<PlannedFile>,
    files: Seq<EmbeddedFile>,
    windows: bool,
    i: int,
)
    requires
        plans(plan, files, windows),
        0 <= i < files.len(),
    ensures
        plan.len() == files.len(),
        plan[i].path@ == files[i].path@,
        plan[i].bytes@ == files[i].bytes@,
        texts(plan[i].components@) == components(files[i].path@, windows),
{
}

/// The distribution is complete where every file of it is there, under its own path and not empty.
pub proof fn law_complete_distributions_hold_every_file(files: Seq<EmbeddedFile>, i: int)
    requires
        complete(files),
        0 <= i < files.len(),
    ensures
        files.len() == inventory().len(),
        files[i].path@ == inventory()[i],
        files[i].bytes@.len() > 0,
{
    assert(file_paths(files)[i] == files[i].path@);
}

/// Lists of texts and what was found in a directory are seen whole.
pub proof fn law_findings_are_seen_whole(
    strings: Seq<String>,
    paths: Seq<&'static str>,
    found: Found,
    i: int,
)
    ensures
        texts(strings).len() == strings.len(),
        path_texts(paths).len() == paths.len(),
        0 <= i < strings.len() ==> texts(strings)[i] == strings[i]@,
        0 <= i < paths.len() ==> path_texts(paths)[i] == paths[i]@,
        found@.exists == found.exists,
        found@.marker == opt_text(found.marker),
        found@.present == found.present@,
{
}

/// Engines are kept under `research/engine`, and a file is written under a name of its own before it is
/// moved into place.
pub proof fn law_engines_are_kept_in_their_place(process: u32, random: Seq<char>)
    ensures
        store_place().len() == 2 && store_place()[0] == "research"@ && store_place()[1] == "engine"@,
        temporary_text(process, random) == ".write-"@ + decimal(process as nat) + "-"@ + random,
{
}

} // verus!
