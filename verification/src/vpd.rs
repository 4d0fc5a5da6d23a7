//! The pose-file reader: a line-based text format holding one static pose.
//!
//! The first line must carry the header phrase; a model-name line and a
//! bone-count line follow; then bone blocks of seven scalars (three
//! translation lanes, four quaternion lanes) and morph blocks of one
//! weight. Loading flips the translation's z lane and the quaternion's z
//! and w lanes into the engine's frame and renormalises. Reading fails
//! exactly when the header phrase is missing; malformed later lines are
//! skipped, as the reference behaviour demands.

use vstd::prelude::*;

use crate::algebra::{q_normalize, qnorm_of, Q4, V3};
use crate::scalar::{fneg, spec_neg};

verus! {

/// The engine's error kind: a rejected pose file, with its reason.
#[derive(Debug)]
pub enum MmdError {
    /// The pose file was rejected.
    VpdParse(String),
}

impl MmdError {
    /// The error's reason text.
    pub fn message(&self) -> (r: &String)
        ensures
            match self {
                MmdError::VpdParse(s) => r@ == s@,
            },
    {
        match self {
            MmdError::VpdParse(s) => s,
        }
    }
}

/// One bone pose read from the file.
#[derive(Clone, Debug)]
pub struct VpdBone {
    /// The bone's name.
    pub name: String,
    /// The pose translation, z already flipped.
    pub translation: V3,
    /// The pose rotation, z and w already flipped and renormalised.
    pub rotation: Q4,
}

/// One morph weight read from the file.
#[derive(Clone, Debug)]
pub struct VpdMorph {
    /// The morph's name.
    pub name: String,
    /// The weight.
    pub weight: u32,
}

/// A parsed pose file.
#[derive(Clone, Debug)]
pub struct VpdFile {
    /// The model name the pose addresses.
    pub model_name: String,
    /// The bone poses.
    pub bones: Vec<VpdBone>,
    /// The morph weights.
    pub morphs: Vec<VpdMorph>,
}

/// The header phrase as bytes: `Vocaloid Pose Data file`.
pub open spec fn spec_header_seq() -> Seq<u8> {
    seq![
        86u8, 111u8, 99u8, 97u8, 108u8, 111u8, 105u8, 100u8, 32u8, 80u8, 111u8, 115u8, 101u8,
        32u8, 68u8, 97u8, 116u8, 97u8, 32u8, 102u8, 105u8, 108u8, 101u8,
    ]
}

/// The header phrase as bytes.
pub fn header_pattern() -> (r: Vec<u8>)
    ensures
        r@ == spec_header_seq(),
{
    let r: Vec<u8> = vec![
        86u8, 111u8, 99u8, 97u8, 108u8, 111u8, 105u8, 100u8, 32u8, 80u8, 111u8, 115u8, 101u8,
        32u8, 68u8, 97u8, 116u8, 97u8, 32u8, 102u8, 105u8, 108u8, 101u8,
    ];
    proof {
        assert(r@ =~= spec_header_seq());
    }
    r
}

/// Index of the first occurrence of `b` in `s` at or after `i`, or the
/// length when there is none.
pub open spec fn spec_find_byte(s: Seq<u8>, b: u8, i: int) -> int
    decreases s.len() - i,
{
    if i < 0 || i >= s.len() {
        s.len() as int
    } else if s[i] == b {
        i
    } else {
        spec_find_byte(s, b, i + 1)
    }
}

/// Whether `pat` occurs in `s` starting at `i`.
pub open spec fn spec_match_at(s: Seq<u8>, pat: Seq<u8>, i: int) -> bool {
    &&& 0 <= i
    &&& i + pat.len() <= s.len()
    &&& (forall|j: int| 0 <= j < pat.len() ==> s[i + j] == #[trigger] pat[j])
}

/// Whether `pat` occurs anywhere in `s`.
pub open spec fn spec_contains_seq(s: Seq<u8>, pat: Seq<u8>) -> bool {
    exists|i: int| #[trigger] spec_match_at(s, pat, i)
}

/// The first line of the input: everything before the first line feed.
pub open spec fn spec_first_line(s: Seq<u8>) -> Seq<u8> {
    s.take(spec_find_byte(s, 10u8, 0))
}

/// Whether the input opens with the header phrase: it is non-empty and
/// its first line holds the phrase.
pub open spec fn spec_vpd_header_ok(s: Seq<u8>) -> bool {
    s.len() > 0 && spec_contains_seq(spec_first_line(s), spec_header_seq())
}

/// Whether `pat` occurs anywhere in `s`.
pub fn contains_seq(s: &Vec<u8>, pat: &Vec<u8>) -> (r: bool)
    ensures
        r == spec_contains_seq(s@, pat@),
{
    let n = s.len();
    let m = pat.len();
    if m > n {
        proof {
            assert forall|i: int| !(#[trigger] spec_match_at(s@, pat@, i)) by {}
        }
        return false;
    }
    let mut i: usize = 0;
    while i <= n - m
        invariant
            m <= n,
            n == s@.len(),
            m == pat@.len(),
            i <= n - m + 1,
            forall|i2: int| 0 <= i2 < i ==> !(#[trigger] spec_match_at(s@, pat@, i2)),
        decreases n - m + 1 - i,
    {
        let mut j: usize = 0;
        let mut matched = true;
        while j < m
            invariant
                m <= n,
                n == s@.len(),
                m == pat@.len(),
                i + m <= n,
                j <= m,
                matched == (forall|j2: int| 0 <= j2 < j ==> s@[i + j2] == #[trigger] pat@[j2]),
            decreases m - j,
        {
            let ghost matched0 = matched;
            if s[i + j] != pat[j] {
                matched = false;
            }
            proof {
                if matched {
                    assert forall|j2: int|
                        0 <= j2 < j + 1 implies s@[i + j2] == #[trigger] pat@[j2] by {}
                } else {
                    if matched0 && s@[i + j as int] == pat@[j as int] {
                        assert(false);
                    }
                }
            }
            j = j + 1;
        }
        if matched {
            proof {
                assert(spec_match_at(s@, pat@, i as int));
            }
            return true;
        }
        proof {
            assert(!spec_match_at(s@, pat@, i as int));
        }
        i = i + 1;
    }
    proof {
        assert forall|i2: int| !(#[trigger] spec_match_at(s@, pat@, i2)) by {
            if 0 <= i2 && i2 + pat@.len() <= s@.len() {
                assert(i2 < i);
            }
        }
    }
    false
}

/// Relies on `str::parse` for single-precision floats, reading the bytes
/// through their UTF-8 view: the result depends on the bytes alone.
pub uninterp spec fn parse_float_of(s: Seq<u8>) -> Option<u32>;

/// Relies on `str::parse::<f32>`; the byte-to-text step only converts the
/// bytes handed to it.
#[verifier::external_body]
pub fn parse_float_bytes(s: &[u8]) -> (r: Option<u32>)
    ensures
        r == parse_float_of(s@),
{
    match core::str::from_utf8(s) {
        Ok(text) => match text.parse() {
            Ok(v) => {
                let x: glam::Vec2 = glam::Vec2::new(v, bytemuck::cast(0u32));
                Some(x.x.to_bits())
            },
            Err(_) => None,
        },
        Err(_) => None,
    }
}

/// Relies on `String::from_utf8_lossy`: the text depends on the bytes
/// alone.
pub uninterp spec fn lossy_text_of(s: Seq<u8>) -> Seq<char>;

/// Relies on `String::from_utf8_lossy` to turn raw name bytes into text.
#[verifier::external_body]
pub fn bytes_to_string(s: &[u8]) -> (r: String)
    ensures
        r@ == lossy_text_of(s@),
{
    String::from_utf8_lossy(s).into_owned()
}

/// A byte slice copied out of a line.
fn sub_bytes(line: &Vec<u8>, from: usize, to: usize) -> (r: Vec<u8>)
    requires
        from <= to <= line@.len(),
    ensures
        r@ == line@.subrange(from as int, to as int),
{
    let mut out: Vec<u8> = Vec::new();
    let mut i: usize = from;
    while i < to
        invariant
            from <= i <= to <= line@.len(),
            out@ == line@.subrange(from as int, i as int),
        decreases to - i,
    {
        out.push(line[i]);
        proof {
            assert(out@ =~= line@.subrange(from as int, i as int + 1));
        }
        i = i + 1;
    }
    out
}

/// Whether a byte is a space, tab or carriage return.
fn is_blank(b: u8) -> (r: bool)
    ensures
        r == (b == 32 || b == 9 || b == 13),
{
    b == 32 || b == 9 || b == 13
}

/// The line with leading and trailing blanks removed.
fn trim_bytes(line: &Vec<u8>) -> (r: Vec<u8>)
    ensures
        r@.len() <= line@.len(),
{
    let n = line.len();
    let mut start: usize = 0;
    while start < n && is_blank(line[start])
        invariant
            n == line@.len(),
            start <= n,
        decreases n - start,
    {
        start = start + 1;
    }
    let mut end: usize = n;
    while end > start && is_blank(line[end - 1])
        invariant
            n == line@.len(),
            start <= end <= n,
        decreases end,
    {
        end = end - 1;
    }
    sub_bytes(line, start, end)
}

/// The line with trailing `;` and `}` bytes removed.
fn strip_terminators(line: &Vec<u8>) -> (r: Vec<u8>)
    ensures
        r@.len() <= line@.len(),
{
    let n = line.len();
    let mut end: usize = n;
    while end > 0 && (line[end - 1] == 59 || line[end - 1] == 125 || is_blank(line[end - 1]))
        invariant
            n == line@.len(),
            end <= n,
        decreases end,
    {
        end = end - 1;
    }
    sub_bytes(line, 0, end)
}

/// Split a line at commas, each piece trimmed.
fn split_commas(line: &Vec<u8>) -> (r: Vec<Vec<u8>>) {
    let mut out: Vec<Vec<u8>> = Vec::new();
    let n = line.len();
    let mut start: usize = 0;
    let mut i: usize = 0;
    while i < n
        invariant
            n == line@.len(),
            start <= i <= n,
        decreases n - i,
    {
        if line[i] == 44 {
            let piece = sub_bytes(line, start, i);
            out.push(trim_bytes(&piece));
            start = i + 1;
        }
        i = i + 1;
    }
    let piece = sub_bytes(line, start, n);
    out.push(trim_bytes(&piece));
    out
}

/// Index of the first `{` in the line, or its length.
fn find_open_brace(line: &Vec<u8>) -> (r: usize)
    ensures
        r as int == spec_find_byte(line@, 123u8, 0),
        r <= line@.len(),
{
    let n = line.len();
    let mut i: usize = 0;
    while i < n
        invariant
            n == line@.len(),
            i <= n,
            forall|j: int| 0 <= j < i ==> line@[j] != 123u8,
        decreases n - i,
    {
        if line[i] == 123 {
            proof {
                lemma_find_byte_hit(line@, 123u8, 0, i as int);
            }
            return i;
        }
        i = i + 1;
    }
    proof {
        lemma_find_byte_miss(line@, 123u8, 0);
    }
    n
}

/// Whether `s` holds `b` anywhere.
pub open spec fn spec_contains_byte(s: Seq<u8>, b: u8) -> bool {
    exists|i: int| 0 <= i < s.len() && s[i] == b
}

/// Whether the line contains the byte.
fn contains_byte(line: &Vec<u8>, b: u8) -> (r: bool)
    ensures
        r == spec_contains_byte(line@, b),
{
    let n = line.len();
    let mut i: usize = 0;
    while i < n
        invariant
            n == line@.len(),
            i <= n,
            forall|j: int| 0 <= j < i ==> line@[j] != b,
        decreases n - i,
    {
        if line[i] == b {
            return true;
        }
        i = i + 1;
    }
    false
}

/// Whether `s` opens with `pat`.
pub open spec fn spec_starts_with(s: Seq<u8>, pat: Seq<u8>) -> bool {
    pat.len() <= s.len() && (forall|j: int| 0 <= j < pat.len() ==> s[j] == #[trigger] pat[j])
}

/// Whether the line starts with the pattern.
fn starts_with_bytes(line: &Vec<u8>, pat: &Vec<u8>) -> (r: bool)
    ensures
        r == spec_starts_with(line@, pat@),
{
    if pat.len() > line.len() {
        return false;
    }
    let m = pat.len();
    let mut j: usize = 0;
    while j < m
        invariant
            m == pat@.len(),
            m <= line@.len(),
            j <= m,
            forall|j2: int| 0 <= j2 < j ==> line@[j2] == #[trigger] pat@[j2],
        decreases m - j,
    {
        if line[j] != pat[j] {
            return false;
        }
        j = j + 1;
    }
    true
}

/// Split the input into lines at line feeds.
fn split_lines(bytes: &[u8]) -> (r: Vec<Vec<u8>>)
    ensures
        bytes@.len() > 0 ==> r@.len() > 0 && r@[0]@ == spec_first_line(bytes@),
        bytes@.len() == 0 ==> r@.len() == 0,
{
    let n = bytes.len();
    let mut out: Vec<Vec<u8>> = Vec::new();
    let mut cur: Vec<u8> = Vec::new();
    let mut i: usize = 0;
    if n == 0 {
        return out;
    }
    proof {
        assert(cur@ =~= bytes@.take(0));
    }
    while i < n
        invariant
            n == bytes@.len(),
            i <= n,
            out@.len() > 0 ==> out@[0]@ == spec_first_line(bytes@),
            out@.len() == 0 ==> {
                &&& cur@ == bytes@.take(i as int)
                &&& (forall|k: int| 0 <= k < i ==> bytes@[k] != 10u8)
            },
        decreases n - i,
    {
        let b = bytes[i];
        if b == 10 {
            proof {
                if out@.len() == 0 {
                    lemma_find_byte_hit(bytes@, 10u8, 0, i as int);
                    assert(cur@ =~= spec_first_line(bytes@));
                }
            }
            out.push(cur);
            cur = Vec::new();
        } else {
            proof {
                if out@.len() == 0 {
                    assert(cur@.push(b) =~= bytes@.take(i as int + 1));
                }
            }
            cur.push(b);
        }
        i = i + 1;
    }
    if cur.len() > 0 || out.len() == 0 {
        proof {
            if out@.len() == 0 {
                lemma_find_byte_miss(bytes@, 10u8, 0);
                assert(bytes@.take(n as int) =~= bytes@);
                assert(cur@ =~= spec_first_line(bytes@));
            }
        }
        out.push(cur);
    }
    out
}

/// When no byte before `hit` matches and `s[hit]` does, the search stops
/// at `hit`.
proof fn lemma_find_byte_hit(s: Seq<u8>, b: u8, from: int, hit: int)
    requires
        0 <= from <= hit < s.len(),
        s[hit] == b,
        forall|k: int| from <= k < hit ==> s[k] != b,
    ensures
        spec_find_byte(s, b, from) == hit,
    decreases hit - from,
{
    if from < hit {
        lemma_find_byte_hit(s, b, from + 1, hit);
    }
}


/// With no match anywhere the search returns the length.
proof fn lemma_find_byte_miss(s: Seq<u8>, b: u8, from: int)
    requires
        0 <= from <= s.len(),
        forall|k: int| from <= k < s.len() ==> s[k] != b,
    ensures
        spec_find_byte(s, b, from) == s.len(),
    decreases s.len() - from,
{
    if from < s.len() {
        lemma_find_byte_miss(s, b, from + 1);
    }
}

/// The bone pose built from a block's seven scalars: the translation's z
/// lane flips into the engine's frame, the rotation's z and w lanes flip
/// and the quaternion renormalises.
pub open spec fn spec_vpd_bone_pose(values: Seq<u32>) -> (V3, Q4)
    recommends
        values.len() >= 7,
{
    (
        V3 { x: values[0], y: values[1], z: spec_neg(values[2]) },
        qnorm_of(
            Q4 { x: values[3], y: values[4], z: spec_neg(values[5]), w: spec_neg(values[6]) },
        ),
    )
}

/// Whether a pose is the block conversion of some seven collected scalars.
pub open spec fn spec_from_block(t: V3, q: Q4) -> bool {
    exists|values: Seq<u32>| values.len() >= 7 && (t, q) == #[trigger] spec_vpd_bone_pose(values)
}

/// Build one bone pose from a block's collected scalars.
fn build_vpd_bone(name: String, values: &Vec<u32>) -> (r: VpdBone)
    requires
        values@.len() >= 7,
    ensures
        r.name@ == name@,
        (r.translation, r.rotation) == spec_vpd_bone_pose(values@),
{
    let translation = V3 { x: values[0], y: values[1], z: fneg(values[2]) };
    let rotation = q_normalize(
        Q4 { x: values[3], y: values[4], z: fneg(values[5]), w: fneg(values[6]) },
    );
    VpdBone { name, translation, rotation }
}

impl VpdFile {
    /// Read a pose file from raw bytes. Reading succeeds exactly when the
    /// input is non-empty and its first line carries the header phrase;
    /// afterwards, bone blocks yield a pose each (translation z flipped,
    /// quaternion z and w flipped, renormalised), morph blocks a weight
    /// each, and malformed lines are skipped.
    pub fn load_from_bytes(bytes: &[u8]) -> (r: Result<VpdFile, MmdError>)
        ensures
            r is Ok <==> spec_vpd_header_ok(bytes@),
            // Every bone pose carries the block conversion: some collected
            // scalars, z lane flipped, quaternion z and w flipped and
            // renormalised.
            r matches Ok(f) ==> forall|k: int|
                0 <= k < f.bones@.len() ==> spec_from_block(
                    (#[trigger] f.bones@[k]).translation,
                    f.bones@[k].rotation,
                ),
    {
        let lines = split_lines(bytes);
        if lines.len() == 0 {
            let msg: Vec<u8> = vec![69u8, 109u8, 112u8, 116u8, 121u8, 32u8, 102u8, 105u8, 108u8, 101u8];
            return Err(MmdError::VpdParse(bytes_to_string(msg.as_slice())));
        }
        let header = &lines[0];
        let pattern = header_pattern();
        if !contains_seq(header, &pattern) {
            let msg: Vec<u8> = vec![
                73u8, 110u8, 118u8, 97u8, 108u8, 105u8, 100u8, 32u8, 86u8, 80u8, 68u8, 32u8,
                104u8, 101u8, 97u8, 100u8, 101u8, 114u8,
            ];
            return Err(MmdError::VpdParse(bytes_to_string(msg.as_slice())));
        }

        let mut model_name = String::new();
        let mut bones: Vec<VpdBone> = Vec::new();
        let mut morphs: Vec<VpdMorph> = Vec::new();

        // The model-name line ends with a semicolon.
        if lines.len() > 1 {
            let trimmed = trim_bytes(&lines[1]);
            if trimmed.len() > 0 && trimmed[trimmed.len() - 1] == 59 {
                let name_part = sub_bytes(&trimmed, 0, trimmed.len() - 1);
                model_name = bytes_to_string(trim_bytes(&name_part).as_slice());
            }
        }

        // The bone-count line is skipped; the blocks follow.
        let bone_pat: Vec<u8> = vec![66u8, 111u8, 110u8, 101u8];
        let morph_pat: Vec<u8> = vec![77u8, 111u8, 114u8, 112u8, 104u8];
        let comment_pat: Vec<u8> = vec![47u8, 47u8];
        let mut current_bone_name: Option<String> = None;
        let mut current_values: Vec<u32> = Vec::new();
        let mut current_morph_index: Option<usize> = None;

        let mut li: usize = 3;
        while li < lines.len()
            invariant
                match current_morph_index {
                    Some(mi) => mi < morphs@.len(),
                    None => true,
                },
                forall|k: int|
                    0 <= k < bones@.len() ==> spec_from_block(
                        (#[trigger] bones@[k]).translation,
                        bones@[k].rotation,
                    ),
            decreases lines@.len() - li,
        {
            let line = trim_bytes(&lines[li]);
            li = li + 1;
            if line.len() == 0 || starts_with_bytes(&line, &comment_pat) {
                continue ;
            }
            if starts_with_bytes(&line, &bone_pat) && contains_byte(&line, 123) {
                let brace = find_open_brace(&line);
                if brace < line.len() {
                    let name_bytes = sub_bytes(&line, brace + 1, line.len());
                    current_bone_name = Some(bytes_to_string(name_bytes.as_slice()));
                    current_morph_index = None;
                    current_values = Vec::new();
                }
            } else if starts_with_bytes(&line, &morph_pat) && contains_byte(&line, 123) {
                let brace = find_open_brace(&line);
                if brace < line.len() {
                    let name_bytes = sub_bytes(&line, brace + 1, line.len());
                    current_bone_name = None;
                    morphs.push(
                        VpdMorph { name: bytes_to_string(name_bytes.as_slice()), weight: 0 },
                    );
                    current_morph_index = Some(morphs.len() - 1);
                }
            } else if current_bone_name.is_some() {
                let clean = strip_terminators(&line);
                let pieces = split_commas(&clean);
                let mut pi: usize = 0;
                while pi < pieces.len()
                    invariant
                        pi <= pieces@.len(),
                    decreases pieces@.len() - pi,
                {
                    match parse_float_bytes(pieces[pi].as_slice()) {
                        Some(v) => {
                            current_values.push(v);
                        },
                        None => {},
                    }
                    pi = pi + 1;
                }
                if current_values.len() >= 7 {
                    let name = match current_bone_name {
                        Some(ref n) => n.clone(),
                        None => String::new(),
                    };
                    let ghost vals = current_values@;
                    bones.push(build_vpd_bone(name, &current_values));
                    proof {
                        assert(spec_from_block(
                            bones@.last().translation,
                            bones@.last().rotation,
                        )) by {
                            assert((bones@.last().translation, bones@.last().rotation)
                                == spec_vpd_bone_pose(vals));
                        }
                    }
                    current_bone_name = None;
                    current_values = Vec::new();
                }
            } else if current_morph_index.is_some() {
                let clean = strip_terminators(&line);
                match parse_float_bytes(trim_bytes(&clean).as_slice()) {
                    Some(weight) => {
                        match current_morph_index {
                            Some(mi) => {
                                let mut m = morphs.remove(mi);
                                m.weight = weight;
                                morphs.insert(mi, m);
                            },
                            None => {},
                        }
                    },
                    None => {},
                }
                current_morph_index = None;
            } else if contains_byte(&line, 125) {
                current_bone_name = None;
                current_morph_index = None;
                current_values = Vec::new();
            }
        }

        Ok(VpdFile { model_name, bones, morphs })
    }
}

} // verus!
