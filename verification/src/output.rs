use vstd::prelude::*;

use crate::path::{
    current_dir_model, extension_of, file_name_of, file_stem_of, is_dot_name, joined, last_dot,
    lemma_last_dot_concat, parent_of, FilePath, PathModel,
};
use crate::text::{
    decimal_text, eq_ignore_ascii_case, equal_ignoring_ascii_case, lemma_decimal_text_injective,
    push_decimal,
};

verus! {

/// Why no output path could be given.
#[derive(Debug, Clone, Copy, PartialEq, Eq, Structural)]
pub enum OutputError {
    /// The source has no file name to name the GIF after.
    MissingFileName,
    /// Every numbered name that the naming rule allows is taken.
    NamesExhausted,
}

impl OutputError {
    /// The text shown for the error.
    pub fn message(&self) -> (r: String)
        ensures
            r@ == match self {
                OutputError::MissingFileName => "源文件没有有效文件名"@,
                OutputError::NamesExhausted => "没有可用的输出文件名"@,
            },
    {
        match self {
            OutputError::MissingFileName => String::from_str("源文件没有有效文件名"),
            OutputError::NamesExhausted => String::from_str("没有可用的输出文件名"),
        }
    }
}

/// The highest number the naming rule puts in "stem (n).gif" (the largest
/// `i32`), plus one.
pub const NAME_INDEX_LIMIT: u32 = 2147483648;

/// "GIF", the name of the output folder.
pub open spec fn gif_folder_name() -> Seq<char> {
    seq!['G', 'I', 'F']
}

/// "webp", the extension of the files the tool converts.
pub open spec fn webp_extension() -> Seq<char> {
    seq!['w', 'e', 'b', 'p']
}

/// ".gif", the ending of every output file name.
pub open spec fn gif_suffix() -> Seq<char> {
    seq!['.', 'g', 'i', 'f']
}

/// The default output folder: a folder "GIF" beside the executable (or in
/// "." where the executable's path has no parent).
pub open spec fn default_output_dir_model(executable: PathModel) -> PathModel {
    match parent_of(executable) {
        Some(dir) => joined(dir, gif_folder_name()),
        None => joined(current_dir_model(), gif_folder_name()),
    }
}

/// A path names a WebP file when its extension is "webp" in any ASCII case.
pub open spec fn is_webp_model(p: PathModel) -> bool {
    match extension_of(p) {
        Some(ext) => eq_ignore_ascii_case(ext, webp_extension()),
        None => false,
    }
}

/// The stem of the output file with number `index`: `stem` itself for 0,
/// "stem (index)" after it.
pub open spec fn numbered_stem(stem: Seq<char>, index: nat) -> Seq<char> {
    if index == 0 {
        stem
    } else {
        stem + seq![' ', '('] + decimal_text(index) + seq![')']
    }
}

/// The output file name with number `index` for a source with stem `stem`:
/// "stem.gif" for 0, "stem (index).gif" after it.
pub open spec fn gif_name(stem: Seq<char>, index: nat) -> Seq<char> {
    numbered_stem(stem, index) + gif_suffix()
}

/// `default_output_dir_for_executable`: the folder "GIF" next to the executable.
pub fn default_output_dir_for_executable(executable: &FilePath) -> (r: FilePath)
    ensures
        r@ == default_output_dir_model(executable@),
{
    proof {
        reveal_strlit("GIF");
    }
    let base = match executable.parent() {
        Some(dir) => dir,
        None => FilePath::current_dir(),
    };
    let name = "GIF";
    assert(name@ =~= gif_folder_name());
    base.join_name(name)
}

/// Whether the path's extension is "webp", in any ASCII case.
pub fn is_webp_file(path: &FilePath) -> (r: bool)
    ensures
        r == is_webp_model(path@),
{
    proof {
        reveal_strlit("webp");
    }
    match path.extension() {
        Some(ext) => equal_ignoring_ascii_case(ext.as_str(), "webp"),
        None => false,
    }
}

/// The output file name with number `index` for a source with stem `stem`.
pub fn gif_file_name(stem: &str, index: u32) -> (r: String)
    ensures
        r@ == gif_name(stem@, index as nat),
        index == 0 ==> r@ == stem@ + seq!['.', 'g', 'i', 'f'],
        index > 0 ==> r@ == stem@ + seq![' ', '('] + decimal_text(index as nat) + seq![')', '.', 'g', 'i', 'f'],
{
    proof {
        reveal_strlit(".gif");
        reveal_strlit(" (");
        reveal_strlit(")");
    }
    let mut name = String::from_str(stem);
    if index > 0 {
        name.append(" (");
        push_decimal(&mut name, index as u64);
        name.append(")");
    }
    name.append(".gif");
    assert(name@ =~= gif_name(stem@, index as nat));
    name
}

/// The output path with number `index` for the GIF made from `source`: the
/// file `gif_name(stem, index)` in `output_dir`.
pub open spec fn gif_candidate(source: PathModel, output_dir: PathModel, index: nat) -> PathModel {
    joined(output_dir, gif_name(file_stem_of(source).unwrap(), index))
}

/// `taken` was asked about a path whose model is `p` and gave `answer`.
pub open spec fn answered<F: Fn(&FilePath) -> bool>(taken: F, p: PathModel, answer: bool) -> bool {
    exists|q: FilePath| #[trigger] call_ensures(taken, (&q,), answer) && q@ == p
}

/// The first output path for the GIF made from `source` that `taken` says
/// is free: the candidates "stem.gif", "stem (1).gif", "stem (2).gif" and so
/// on are put to `taken` in turn, and the first one it answers `false` for is
/// given back. Where it answers `true` for every number below
/// `NAME_INDEX_LIMIT`, the names are exhausted.
pub fn first_free_gif_path<F: Fn(&FilePath) -> bool>(
    source: &FilePath,
    output_dir: &FilePath,
    taken: F,
) -> (r: Result<FilePath, OutputError>)
    requires
        forall|p: &FilePath| #[trigger] taken.requires((p,)),
    ensures
        (r matches Err(OutputError::MissingFileName)) <==> file_stem_of(source@) is None,
        r matches Ok(p) ==> exists|k: nat|
            #![trigger gif_candidate(source@, output_dir@, k)]
            {
                &&& k < NAME_INDEX_LIMIT
                &&& p@ == gif_candidate(source@, output_dir@, k)
                &&& call_ensures(taken, (&p,), false)
                &&& forall|j: nat| j < k ==> answered(taken, #[trigger] gif_candidate(source@, output_dir@, j), true)
            },
        r matches Err(OutputError::NamesExhausted) ==> forall|j: nat|
            j < NAME_INDEX_LIMIT ==> answered(taken, #[trigger] gif_candidate(source@, output_dir@, j), true),
{
    let stem = match source.file_stem() {
        Some(stem) => stem,
        None => return Err(OutputError::MissingFileName),
    };
    let ghost stem_model = file_stem_of(source@).unwrap();
    let mut index: u32 = 0;
    let mut candidate = output_dir.join_name(gif_file_name(stem.as_str(), index).as_str());
    loop
        invariant
            forall|p: &FilePath| #[trigger] taken.requires((p,)),
            index < NAME_INDEX_LIMIT,
            stem@ == stem_model,
            file_stem_of(source@) == Some(stem_model),
            candidate@ == gif_candidate(source@, output_dir@, index as nat),
            forall|j: nat| j < index ==> answered(taken, #[trigger] gif_candidate(source@, output_dir@, j), true),
        decreases NAME_INDEX_LIMIT - index,
    {
        let busy = taken(&candidate);
        if !busy {
            assert(gif_candidate(source@, output_dir@, index as nat) == candidate@);
            return Ok(candidate);
        }
        assert(answered(taken, gif_candidate(source@, output_dir@, index as nat), true)) by {
            assert(call_ensures(taken, (&candidate,), true) && candidate@ == gif_candidate(
                source@,
                output_dir@,
                index as nat,
            ));
        }
        if index + 1 == NAME_INDEX_LIMIT {
            return Err(OutputError::NamesExhausted);
        }
        index = index + 1;
        candidate = output_dir.join_name(gif_file_name(stem.as_str(), index).as_str());
    }
}

/// `Path::exists`: whether something exists at the path, as the file
/// system says at the moment of the call; the answer may differ from one
/// call to the next, so nothing is stated of it. It is public because the
/// contract of `unique_gif_path` speaks of its answers.
#[verifier::external_body]
pub fn path_exists(path: &FilePath) -> bool {
    let mut buf = std::path::PathBuf::from(&path.root);
    for name in path.names.iter() {
        buf.push(name);
    }
    buf.exists()
}

/// A path in `output_dir` for the GIF made from `source` that nothing
/// occupies yet: "stem.gif", else "stem (1).gif", "stem (2).gif" and so on,
/// the first one the file system does not hold, as `first_free_gif_path`
/// finds it with `path_exists` as the test: every earlier candidate was
/// reported as existing, and the one given back as not existing.
pub fn unique_gif_path(source: &FilePath, output_dir: &FilePath) -> (r: Result<FilePath, OutputError>)
    ensures
        (r matches Err(OutputError::MissingFileName)) <==> file_stem_of(source@) is None,
        r matches Ok(p) ==> exists|k: nat|
            #![trigger gif_candidate(source@, output_dir@, k)]
            {
                &&& k < NAME_INDEX_LIMIT
                &&& p@ == gif_candidate(source@, output_dir@, k)
                &&& call_ensures(path_exists, (&p,), false)
                &&& forall|j: nat|
                    j < k ==> answered(path_exists, #[trigger] gif_candidate(source@, output_dir@, j), true)
            },
        r matches Err(OutputError::NamesExhausted) ==> forall|j: nat|
            j < NAME_INDEX_LIMIT ==> answered(path_exists, #[trigger] gif_candidate(source@, output_dir@, j), true),
{
    first_free_gif_path(source, output_dir, path_exists)
}

/// Law: an output name begins with the source's stem, unchanged, and ends
/// in ".gif": "stem.gif" for number 0, "stem (n).gif" with `n` in decimal
/// after it.
pub proof fn law_gif_name_keeps_stem(stem: Seq<char>, index: nat)
    ensures
        gif_name(stem, index).len() >= stem.len() + 4,
        gif_name(stem, index).take(stem.len() as int) == stem,
        gif_name(stem, index).skip(gif_name(stem, index).len() - 4) == seq!['.', 'g', 'i', 'f'],
        index == 0 ==> gif_name(stem, index) == stem + seq!['.', 'g', 'i', 'f'],
        index > 0 ==> gif_name(stem, index) == stem + seq![' ', '('] + decimal_text(index) + seq![
            ')',
            '.',
            'g',
            'i',
            'f',
        ],
{
    let name = gif_name(stem, index);
    assert(name.take(stem.len() as int) =~= stem);
    assert(name.skip(name.len() - 4) =~= seq!['.', 'g', 'i', 'f']);
    if index == 0 {
        assert(name =~= stem + seq!['.', 'g', 'i', 'f']);
    } else {
        assert(name =~= stem + seq![' ', '('] + decimal_text(index) + seq![')', '.', 'g', 'i', 'f']);
    }
}

/// Law: whether a path names a WebP file depends on its file name alone:
/// two paths with the same file name, whatever their roots and folders,
/// are both WebP files or both not.
pub proof fn law_webp_depends_only_on_file_name(p: PathModel, q: PathModel)
    requires
        file_name_of(p) == file_name_of(q),
    ensures
        is_webp_model(p) == is_webp_model(q),
{
}

/// Law: a file named "<stem>.webp", with the extension in any ASCII case
/// and a non-empty stem, is a WebP file in every folder, under every root.
pub proof fn law_webp_names_are_webp(dir: PathModel, stem: Seq<char>, ext: Seq<char>)
    requires
        stem.len() > 0,
        ext.len() == 4,
        eq_ignore_ascii_case(ext, webp_extension()),
    ensures
        is_webp_model(joined(dir, stem + seq!['.'] + ext)),
{
    let tail = seq!['.'] + ext;
    let name = stem + tail;
    assert(name =~= stem + seq!['.'] + ext);
    assert forall|j: int| 0 <= j < 4 implies ext[j] != '.' by {
        assert(eq_ignore_ascii_case(ext, webp_extension()));
    }
    assert(last_dot(tail) == 0) by {
        reveal_with_fuel(last_dot, 6);
        assert(tail.drop_last() =~= seq!['.', ext[0], ext[1], ext[2]]);
        assert(tail.drop_last().drop_last() =~= seq!['.', ext[0], ext[1]]);
        assert(tail.drop_last().drop_last().drop_last() =~= seq!['.', ext[0]]);
        assert(tail.drop_last().drop_last().drop_last().drop_last() =~= seq!['.']);
    }
    lemma_last_dot_concat(stem, tail);
    assert(last_dot(name) == stem.len());
    assert(name.skip(stem.len() as int + 1) =~= ext);
    let p = joined(dir, name);
    assert(p.1.last() == name);
    assert(!is_dot_name(name)) by {
        assert(name.len() >= 5);
    }
}

/// Law: the output names for one stem differ for different numbers, so the
/// search in `first_free_gif_path` tries a new file name at every step.
pub proof fn law_gif_names_distinct(stem: Seq<char>, i: nat, j: nat)
    requires
        i != j,
    ensures
        gif_name(stem, i) != gif_name(stem, j),
{
    if gif_name(stem, i) == gif_name(stem, j) {
        let a = numbered_stem(stem, i);
        let b = numbered_stem(stem, j);
        let n = gif_name(stem, i);
        assert(n.len() == a.len() + 4);
        assert(gif_name(stem, j).len() == b.len() + 4);
        assert(a.len() == b.len());
        assert(n.take(a.len() as int) =~= a);
        assert(gif_name(stem, j).take(b.len() as int) =~= b);
        assert(a =~= b);
        if i > 0 && j > 0 {
            let start: int = stem.len() as int + 2;
            let di = decimal_text(i);
            let dj = decimal_text(j);
            assert(a.subrange(start, start + di.len() as int) =~= di);
            assert(b.subrange(start, start + dj.len() as int) =~= dj);
            assert(di.len() == dj.len());
            lemma_decimal_text_injective(i, j);
        } else {
            assert(a.len() != b.len());
        }
    }
}

/// Law: every candidate output path lies in the output folder, is named
/// "<numbered stem>.gif", has the extension "gif", and is never itself taken
/// for a WebP file.
pub proof fn law_gif_candidate_shape(output_dir: PathModel, stem: Seq<char>, index: nat)
    requires
        stem.len() > 0,
    ensures
        parent_of(joined(output_dir, gif_name(stem, index))) == Some(output_dir),
        file_name_of(joined(output_dir, gif_name(stem, index))) == Some(gif_name(stem, index)),
        file_stem_of(joined(output_dir, gif_name(stem, index))) == Some(numbered_stem(stem, index)),
        extension_of(joined(output_dir, gif_name(stem, index))) == Some(seq!['g', 'i', 'f']),
        !is_webp_model(joined(output_dir, gif_name(stem, index))),
{
    let p = joined(output_dir, gif_name(stem, index));
    let name = gif_name(stem, index);
    let base = numbered_stem(stem, index);
    assert(p.1.drop_last() =~= output_dir.1);
    assert(p.1.last() == name);
    assert(name.len() >= 5);
    assert(name != seq!['.']);
    assert(name != seq!['.', '.']) by {
        if name == seq!['.', '.'] {
            assert(name.len() == 2);
        }
    }
    assert(last_dot(gif_suffix()) == 0) by {
        reveal_with_fuel(last_dot, 5);
        assert(gif_suffix().drop_last() =~= seq!['.', 'g', 'i']);
        assert(gif_suffix().drop_last().drop_last() =~= seq!['.', 'g']);
        assert(gif_suffix().drop_last().drop_last().drop_last() =~= seq!['.']);
    }
    lemma_last_dot_concat(base, gif_suffix());
    assert(last_dot(name) == base.len());
    assert(base.len() >= stem.len());
    assert(name.take(base.len() as int) =~= base);
    assert(name.skip(base.len() as int + 1) =~= seq!['g', 'i', 'f']);
    let ext = seq!['g', 'i', 'f'];
    assert(!eq_ignore_ascii_case(ext, webp_extension()));
}

/// Law: the default output folder is named "GIF" and lies in the folder
/// that holds the executable (in "." where the executable's path names no
/// folder).
pub proof fn law_default_output_dir_is_gif_folder(executable: PathModel)
    ensures
        file_name_of(default_output_dir_model(executable)) == Some(gif_folder_name()),
        parent_of(default_output_dir_model(executable)) == Some(
            match parent_of(executable) {
                Some(dir) => dir,
                None => current_dir_model(),
            },
        ),
{
    let base = match parent_of(executable) {
        Some(dir) => dir,
        None => current_dir_model(),
    };
    let p = default_output_dir_model(executable);
    assert(p.1.drop_last() =~= base.1);
    assert(p.1.last() == gif_folder_name());
    assert(gif_folder_name() != seq!['.']) by {
        assert(gif_folder_name().len() == 3);
    }
    assert(gif_folder_name() != seq!['.', '.']) by {
        assert(gif_folder_name().len() == 3);
    }
}

} // verus!
