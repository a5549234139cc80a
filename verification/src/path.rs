//! Output path resolution.
//!
//! A path is read as text in which separators part components. Which
//! characters separate is the caller's to say, with a `Separators` value:
//! `/` alone, or `/` and `\`. The file name of a path is its last component,
//! where empty components and lone `.` components do not count and a final
//! `..` means that there is no file name. The extension of a file name is
//! what follows its last dot, unless that dot is the first character of the
//! name. Nothing else in a path has a meaning here: a drive letter or a host
//! name is text like any other.

use vstd::prelude::*;
use vstd::string::*;

verus! {

/// The characters that separate the components of a path.
#[derive(Clone, Copy, Debug)]
pub enum Separators {
    /// `/` only.
    Slash,
    /// `/` and `\`.
    SlashOrBackslash,
}

/// Whether `c` separates the components of a path.
pub open spec fn is_separator(separators: Separators, c: char) -> bool {
    c == '/' || (separators is SlashOrBackslash && c == '\\')
}

/// Whether `path` ends in a component that is a lone `.`.
pub open spec fn ends_in_dot_component(separators: Separators, path: Seq<char>) -> bool {
    &&& path.len() >= 1
    &&& path.last() == '.'
    &&& (path.len() == 1 || is_separator(separators, path[path.len() - 2]))
}

/// The length of `path` without its trailing separators and `.` components.
pub open spec fn trimmed_len(separators: Separators, path: Seq<char>) -> nat
    decreases path.len(),
{
    if path.len() > 0 && (is_separator(separators, path.last()) || ends_in_dot_component(
        separators,
        path,
    )) {
        trimmed_len(separators, path.drop_last())
    } else {
        path.len()
    }
}

/// The index at which the last component of `path` begins, for a path that
/// does not end in a separator.
pub open spec fn component_start(separators: Separators, path: Seq<char>) -> nat
    decreases path.len(),
{
    if path.len() > 0 && !is_separator(separators, path.last()) {
        component_start(separators, path.drop_last())
    } else {
        path.len()
    }
}

/// The index in `path` at which its file name begins.
pub open spec fn name_start(separators: Separators, path: Seq<char>) -> nat {
    component_start(separators, path.take(trimmed_len(separators, path) as int))
}

/// The file name of `path`, if it has one.
pub open spec fn file_name(separators: Separators, path: Seq<char>) -> Option<Seq<char>> {
    let name = path.subrange(
        name_start(separators, path) as int,
        trimmed_len(separators, path) as int,
    );
    if name.len() == 0 || name == seq!['.', '.'] {
        None
    } else {
        Some(name)
    }
}

/// The index of the last dot in `name`, or -1 if it has none.
pub open spec fn last_dot(name: Seq<char>) -> int
    decreases name.len(),
{
    if name.len() == 0 {
        -1
    } else if name.last() == '.' {
        name.len() - 1
    } else {
        last_dot(name.drop_last())
    }
}

/// The length of the stem of the file name `name`: the whole name if it has
/// no extension, else what precedes the dot of the extension.
pub open spec fn stem_len(name: Seq<char>) -> nat {
    if last_dot(name) <= 0 {
        name.len()
    } else {
        last_dot(name) as nat
    }
}

/// `path` with the extension of its file name replaced by `new_extension`.
///
/// Everything up to the end of the stem is kept. What follows it (the old
/// extension and any trailing separators) gives way to a dot and the new
/// extension, or to nothing if the new extension is empty. A path without a
/// file name is left as it is.
pub open spec fn with_extension(
    separators: Separators,
    path: Seq<char>,
    new_extension: Seq<char>,
) -> Seq<char> {
    match file_name(separators, path) {
        None => path,
        Some(name) => {
            let kept = path.take((name_start(separators, path) + stem_len(name)) as int);
            if new_extension.len() == 0 {
                kept
            } else {
                kept + seq!['.'] + new_extension
            }
        },
    }
}

/// The extension of the files that a conversion writes.
pub open spec fn target_extension() -> Seq<char> {
    seq!['w', 'e', 'b', 'p']
}

/// The path that a conversion writes to: the one the caller gave, else the
/// input path with the target extension.
pub open spec fn resolved_output_path(
    separators: Separators,
    input_path: Seq<char>,
    output_path: Option<Seq<char>>,
) -> Seq<char> {
    match output_path {
        Some(path) => path,
        None => with_extension(separators, input_path, target_extension()),
    }
}

/// Whether no character of `text` is a separator.
pub open spec fn has_no_separator(separators: Separators, text: Seq<char>) -> bool {
    forall|i: int| 0 <= i < text.len() ==> !is_separator(separators, #[trigger] text[i])
}

/// Whether no character of `text` is a dot.
pub open spec fn has_no_dot(text: Seq<char>) -> bool {
    forall|i: int| 0 <= i < text.len() ==> #[trigger] text[i] != '.'
}

/// Whether `dir` can stand in front of a file name: it is empty or ends in a
/// separator.
pub open spec fn is_directory_prefix(separators: Separators, dir: Seq<char>) -> bool {
    dir.len() == 0 || is_separator(separators, dir.last())
}

proof fn lemma_component_start_after_prefix(
    separators: Separators,
    dir: Seq<char>,
    name: Seq<char>,
)
    requires
        is_directory_prefix(separators, dir),
        has_no_separator(separators, name),
    ensures
        component_start(separators, dir + name) == dir.len(),
    decreases name.len(),
{
    if name.len() == 0 {
        assert(dir + name =~= dir);
    } else {
        let whole = dir + name;
        assert(whole.last() == name.last());
        assert(whole.drop_last() =~= dir + name.drop_last());
        lemma_component_start_after_prefix(separators, dir, name.drop_last());
    }
}

proof fn lemma_last_dot_before_extension(stem: Seq<char>, ext: Seq<char>)
    requires
        has_no_dot(ext),
    ensures
        last_dot(stem + seq!['.'] + ext) == stem.len(),
    decreases ext.len(),
{
    let whole = stem + seq!['.'] + ext;
    if ext.len() == 0 {
        assert(whole.last() == '.');
    } else {
        assert(whole.last() == ext.last());
        assert(whole.drop_last() =~= stem + seq!['.'] + ext.drop_last());
        lemma_last_dot_before_extension(stem, ext.drop_last());
    }
}

proof fn lemma_last_dot_absent(name: Seq<char>)
    requires
        has_no_dot(name),
    ensures
        last_dot(name) == -1,
    decreases name.len(),
{
    if name.len() > 0 {
        assert(name.last() != '.');
        lemma_last_dot_absent(name.drop_last());
    }
}

/// In a path made of a directory prefix and a name without separators, the
/// name is the file name, unless it is `.` or `..`.
proof fn lemma_file_name_after_prefix(separators: Separators, dir: Seq<char>, name: Seq<char>)
    requires
        is_directory_prefix(separators, dir),
        name.len() > 0,
        has_no_separator(separators, name),
        name != seq!['.'],
    ensures
        trimmed_len(separators, dir + name) == (dir + name).len(),
        name_start(separators, dir + name) == dir.len(),
        file_name(separators, dir + name) == if name == seq!['.', '.'] {
            None
        } else {
            Some(name)
        },
{
    let path = dir + name;
    assert(path.last() == name.last());
    assert(!ends_in_dot_component(separators, path)) by {
        if name.len() == 1 {
            if name[0] == '.' {
                assert(name =~= seq!['.']);
            }
        } else {
            assert(path[path.len() - 2] == name[name.len() - 2]);
        }
    }
    assert(trimmed_len(separators, path) == path.len());
    assert(path.take(path.len() as int) =~= path);
    lemma_component_start_after_prefix(separators, dir, name);
    assert(path.subrange(dir.len() as int, path.len() as int) =~= name);
}

/// Replacing an extension: for a file name made of a stem, a dot and an
/// extension without dots (the extension may be empty), in any directory,
/// the new path keeps the directory and the stem and ends in a dot and the
/// new extension. The one name of that shape that is left out is `..`, which
/// is no file name.
pub proof fn lemma_extension_replaced(
    separators: Separators,
    dir: Seq<char>,
    stem: Seq<char>,
    old_extension: Seq<char>,
    new_extension: Seq<char>,
)
    requires
        is_directory_prefix(separators, dir),
        stem.len() > 0,
        has_no_separator(separators, stem),
        has_no_separator(separators, old_extension),
        has_no_dot(old_extension),
        !(stem == seq!['.'] && old_extension.len() == 0),
        new_extension.len() > 0,
    ensures
        with_extension(separators, dir + stem + seq!['.'] + old_extension, new_extension) == dir
            + stem + seq!['.'] + new_extension,
{
    let name = stem + seq!['.'] + old_extension;
    let path = dir + stem + seq!['.'] + old_extension;
    assert(path =~= dir + name);
    assert(name.len() >= 2);
    assert(name != seq!['.', '.']) by {
        if name == seq!['.', '.'] {
            assert(name.len() == 2);
            assert(name[0] == '.');
            assert(stem =~= seq!['.']);
        }
    }
    lemma_file_name_after_prefix(separators, dir, name);
    lemma_last_dot_before_extension(stem, old_extension);
    assert(path.take((dir.len() + stem.len()) as int) =~= dir + stem);
}

/// Adding an extension: for a file name without an extension (one without a
/// dot, or whose only dot is its first character), in any directory, the new
/// path is the old one followed by a dot and the new extension. A lone `.`
/// is left out, being no file name.
pub proof fn lemma_extension_added(
    separators: Separators,
    dir: Seq<char>,
    name: Seq<char>,
    new_extension: Seq<char>,
)
    requires
        is_directory_prefix(separators, dir),
        name.len() > 0,
        has_no_separator(separators, name),
        has_no_dot(name) || (name[0] == '.' && name.len() > 1 && has_no_dot(name.skip(1))),
        new_extension.len() > 0,
    ensures
        with_extension(separators, dir + name, new_extension) == dir + name + seq!['.']
            + new_extension,
{
    let path = dir + name;
    assert(name != seq!['.']) by {
        if name == seq!['.'] {
            assert(name.len() == 1);
            assert(name[0] == '.');
        }
    }
    assert(name != seq!['.', '.']) by {
        if name == seq!['.', '.'] {
            assert(name.len() == 2);
            assert(name[0] == '.');
            assert(name.skip(1)[0] == '.');
        }
    }
    lemma_file_name_after_prefix(separators, dir, name);
    assert(last_dot(name) <= 0) by {
        if has_no_dot(name) {
            lemma_last_dot_absent(name);
        } else {
            lemma_last_dot_before_extension(Seq::<char>::empty(), name.skip(1));
            assert(Seq::<char>::empty() + seq!['.'] + name.skip(1) =~= name);
        }
    }
    assert(path.take((dir.len() + name.len()) as int) =~= path);
}

/// Where no output path is given, an input whose file name has an extension
/// (possibly an empty one, after a final dot) is written beside itself under
/// the same stem with the target extension; the rest of the path is kept.
pub proof fn lemma_output_replaces_input_extension(
    separators: Separators,
    dir: Seq<char>,
    stem: Seq<char>,
    old_extension: Seq<char>,
)
    requires
        is_directory_prefix(separators, dir),
        stem.len() > 0,
        has_no_separator(separators, stem),
        has_no_separator(separators, old_extension),
        has_no_dot(old_extension),
        !(stem == seq!['.'] && old_extension.len() == 0),
    ensures
        resolved_output_path(separators, dir + stem + seq!['.'] + old_extension, None) == dir
            + stem + seq!['.'] + target_extension(),
{
    lemma_extension_replaced(separators, dir, stem, old_extension, target_extension());
}

/// Where no output path is given, an input whose file name has no extension
/// is written beside itself under its whole name followed by a dot and the
/// target extension.
pub proof fn lemma_output_extends_bare_input(
    separators: Separators,
    dir: Seq<char>,
    name: Seq<char>,
)
    requires
        is_directory_prefix(separators, dir),
        name.len() > 0,
        has_no_separator(separators, name),
        has_no_dot(name) || (name[0] == '.' && name.len() > 1 && has_no_dot(name.skip(1))),
    ensures
        resolved_output_path(separators, dir + name, None) == dir + name + seq!['.']
            + target_extension(),
{
    lemma_extension_added(separators, dir, name, target_extension());
}

/// The characters of `text`, in order.
fn characters(text: &str) -> (chars: Vec<char>)
    ensures
        chars@ == text@,
{
    let mut chars: Vec<char> = Vec::new();
    for c in it: text.chars()
        invariant
            chars@ == it.seq().take(it.index() as int),
            it.seq() == text@,
    {
        chars.push(c);
    }
    chars
}

/// Whether `c` separates the components of a path.
fn separates(separators: Separators, c: char) -> (yes: bool)
    ensures
        yes == is_separator(separators, c),
{
    match separators {
        Separators::Slash => c == '/',
        Separators::SlashOrBackslash => c == '/' || c == '\\',
    }
}

/// Where the trailing separators and `.` components of `chars` begin.
fn trimmed_end(separators: Separators, chars: &Vec<char>) -> (end: usize)
    ensures
        end == trimmed_len(separators, chars@),
        end <= chars.len(),
{
    let mut end = chars.len();
    assert(chars@.take(end as int) =~= chars@);
    while end > 0 && (separates(separators, chars[end - 1]) || (chars[end - 1] == '.' && (end == 1
        || separates(separators, chars[end - 2]))))
        invariant
            end <= chars.len(),
            trimmed_len(separators, chars@) == trimmed_len(separators, chars@.take(end as int)),
        decreases end,
    {
        assert(chars@.take(end as int).drop_last() =~= chars@.take(end - 1));
        end -= 1;
    }
    end
}

/// Where the component of `chars` that ends at `end` begins.
fn component_begin(separators: Separators, chars: &Vec<char>, end: usize) -> (start: usize)
    requires
        end <= chars.len(),
    ensures
        start == component_start(separators, chars@.take(end as int)),
        start <= end,
{
    let mut start = end;
    while start > 0 && !separates(separators, chars[start - 1])
        invariant
            start <= end <= chars.len(),
            component_start(separators, chars@.take(end as int)) == component_start(
                separators,
                chars@.take(start as int),
            ),
        decreases start,
    {
        assert(chars@.take(start as int).drop_last() =~= chars@.take(start - 1));
        start -= 1;
    }
    start
}

/// The length of the stem of the file name that `chars` holds from `start`
/// up to `end`.
fn stem_length(chars: &Vec<char>, start: usize, end: usize) -> (len: usize)
    requires
        start <= end <= chars.len(),
    ensures
        len == stem_len(chars@.subrange(start as int, end as int)),
        len <= end - start,
{
    let ghost name = chars@.subrange(start as int, end as int);
    let mut dot = end;
    assert(name.take(dot - start) =~= name);
    while dot > start && chars[dot - 1] != '.'
        invariant
            start <= dot <= end <= chars.len(),
            name == chars@.subrange(start as int, end as int),
            last_dot(name) == last_dot(name.take(dot - start)),
        decreases dot,
    {
        assert(name.take(dot - start).drop_last() =~= name.take(dot - 1 - start));
        dot -= 1;
    }
    if dot - start <= 1 {
        end - start
    } else {
        dot - 1 - start
    }
}

/// Replaces the extension of the file name of `path` by `new_extension`.
///
/// With an empty `new_extension` the old extension is removed. A path that
/// has no file name (it is empty, or made of separators and `.` only, or
/// ends in `..`) comes back unchanged.
pub fn replace_extension(separators: Separators, path: &str, new_extension: &str) -> (replaced:
    String)
    ensures
        replaced@ == with_extension(separators, path@, new_extension@),
{
    let chars = characters(path);
    let end = trimmed_end(separators, &chars);
    let start = component_begin(separators, &chars, end);
    let ghost name = chars@.subrange(start as int, end as int);
    if start == end {
        return String::from_str(path);
    }
    if end - start == 2 && chars[start] == '.' && chars[start + 1] == '.' {
        assert(name =~= seq!['.', '.']);
        return String::from_str(path);
    }
    assert(name != seq!['.', '.']) by {
        if name == seq!['.', '.'] {
            assert(name.len() == 2);
            assert(name[0] == '.' && name[1] == '.');
        }
    }
    let stem_end = start + stem_length(&chars, start, end);
    let mut replaced = String::from_str(path.substring_char(0, stem_end));
    assert(path@.subrange(0, stem_end as int) =~= path@.take(stem_end as int));
    if !new_extension.is_empty() {
        proof {
            reveal_strlit(".");
        }
        replaced.append(".");
        replaced.append(new_extension);
        assert("."@ =~= seq!['.']);
    }
    replaced
}

/// The extension of the files that a conversion writes.
pub fn target_extension_text() -> (text: &'static str)
    ensures
        text@ == target_extension(),
{
    proof {
        reveal_strlit("webp");
    }
    assert("webp"@ =~= target_extension());
    "webp"
}

/// Settles where a conversion writes: at `output_path` if the caller gave
/// one, else beside the input, under its name with the target extension.
pub fn resolve_output_path(
    separators: Separators,
    input_path: &str,
    output_path: Option<String>,
) -> (resolved: String)
    ensures
        resolved@ == resolved_output_path(
            separators,
            input_path@,
            match output_path {
                Some(path) => Some(path@),
                None => None,
            },
        ),
{
    match output_path {
        Some(path) => path,
        None => replace_extension(separators, input_path, target_extension_text()),
    }
}

} // verus!
