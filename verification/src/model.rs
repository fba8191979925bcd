//! Whisper model presets and the paths and URLs of their cached files.

use vstd::prelude::*;

verus! {

/// Supported Whisper model-size presets.
#[derive(Debug, Clone, Copy, PartialEq, Eq, Structural)]
pub enum ModelSize {
    Tiny,
    Base,
    Small,
    Medium,
    Large,
}

/// The whisper.cpp asset name of a preset.
pub open spec fn model_filename(size: ModelSize) -> Seq<char> {
    match size {
        ModelSize::Tiny => "ggml-tiny.en.bin"@,
        ModelSize::Base => "ggml-base.en.bin"@,
        ModelSize::Small => "ggml-small.en.bin"@,
        ModelSize::Medium => "ggml-medium.en.bin"@,
        ModelSize::Large => "ggml-large-v3.bin"@,
    }
}

/// Where the whisper.cpp assets are published.
pub open spec fn model_url_prefix() -> Seq<char> {
    "https://huggingface.co/ggerganov/whisper.cpp/resolve/main/"@
}

/// Appends a relative component to a '/'-separated path the way
/// `Path::join` does: an empty base gives the component itself, and a
/// separator is added unless the base already ends with one.
pub open spec fn path_join(base: Seq<char>, name: Seq<char>) -> Seq<char> {
    if base.len() == 0 {
        name
    } else if base.last() == '/' {
        base + name
    } else {
        base + seq!['/'] + name
    }
}

/// `path_join` for executable code.
pub fn join_path(base: &str, name: &str) -> (out: String)
    ensures
        out@ == path_join(base@, name@),
{
    let n = base.unicode_len();
    let mut out = String::from_str(base);
    if n == 0 {
        return String::from_str(name);
    }
    if base.get_char(n - 1) != '/' {
        out.append("/");
        proof {
            reveal_strlit("/");
        }
    }
    out.append(name);
    out
}

impl ModelSize {
    /// Returns the expected model filename for a size preset.
    pub fn filename(self) -> (name: &'static str)
        ensures
            name@ == model_filename(self),
    {
        match self {
            ModelSize::Tiny => "ggml-tiny.en.bin",
            ModelSize::Base => "ggml-base.en.bin",
            ModelSize::Small => "ggml-small.en.bin",
            ModelSize::Medium => "ggml-medium.en.bin",
            // Large does not have an `.en` variant in whisper.cpp assets.
            ModelSize::Large => "ggml-large-v3.bin",
        }
    }

    /// Returns the download URL for a size preset.
    pub fn download_url(self) -> (url: String)
        ensures
            url@ == model_url_prefix() + model_filename(self),
    {
        let mut url = String::from_str("https://huggingface.co/ggerganov/whisper.cpp/resolve/main/");
        url.append(self.filename());
        url
    }
}

/// Calls `dirs::cache_dir`, read as UTF-8 text; it depends on the
/// environment, so nothing is claimed of the outcome.
#[verifier::external_body]
fn cache_dir() -> Option<String> {
    dirs::cache_dir().map(|p| p.to_string_lossy().into_owned())
}

/// Calls `dirs::home_dir`, read as UTF-8 text; it depends on the
/// environment, so nothing is claimed of the outcome.
#[verifier::external_body]
fn home_dir() -> Option<String> {
    dirs::home_dir().map(|p| p.to_string_lossy().into_owned())
}

/// The model cache directory chosen from the user's cache and home
/// directories, with a relative fallback when neither is known.
pub open spec fn model_dir_from(cache: Option<Seq<char>>, home: Option<Seq<char>>) -> Seq<char> {
    match cache {
        Some(c) => path_join(path_join(c, "whisper_input"@), "models"@),
        None => match home {
            Some(h) => path_join(path_join(path_join(h, ".cache"@), "whisper_input"@), "models"@),
            None => ".whisper_input/models"@,
        },
    }
}

/// Resolves the model cache directory from the known user directories.
pub fn model_dir_for(cache: Option<&str>, home: Option<&str>) -> (dir: String)
    ensures
        dir@ == model_dir_from(
            match cache { Some(c) => Some(c@), None => None },
            match home { Some(h) => Some(h@), None => None },
        ),
{
    match cache {
        Some(c) => {
            let a = join_path(c, "whisper_input");
            join_path(a.as_str(), "models")
        },
        None => match home {
            Some(h) => {
                let a = join_path(h, ".cache");
                let b = join_path(a.as_str(), "whisper_input");
                join_path(b.as_str(), "models")
            },
            None => String::from_str(".whisper_input/models"),
        },
    }
}

/// Resolves the default model cache directory of the current user.
pub fn default_model_dir() -> (dir: String)
    ensures
        exists|cache: Option<Seq<char>>, home: Option<Seq<char>>| dir@ == #[trigger] model_dir_from(cache, home),
        dir@.len() >= 20,
        dir@.subrange(dir@.len() - 20, dir@.len() as int) == "whisper_input/models"@,
{
    let cache = cache_dir();
    let home = home_dir();
    let dir = match (&cache, &home) {
        (Some(c), Some(h)) => model_dir_for(Some(c.as_str()), Some(h.as_str())),
        (Some(c), None) => model_dir_for(Some(c.as_str()), None),
        (None, Some(h)) => model_dir_for(None, Some(h.as_str())),
        (None, None) => model_dir_for(None, None),
    };
    proof {
        reveal_strlit("models");
        reveal_strlit("whisper_input");
        reveal_strlit(".whisper_input/models");
        reveal_strlit("whisper_input/models");
        let w = "whisper_input"@;
        let m = "models"@;
        assert forall|b: Seq<char>| #[trigger] path_join(path_join(b, w), m).len() >= 20
            && path_join(path_join(b, w), m).subrange(
                path_join(path_join(b, w), m).len() - 20,
                path_join(path_join(b, w), m).len() as int,
            ) == "whisper_input/models"@ by {
            let j = path_join(path_join(b, w), m);
            assert(path_join(b, w).last() == 't');
            assert(j == path_join(b, w) + seq!['/'] + m);
            assert(j.subrange(j.len() - 20, j.len() as int) =~= "whisper_input/models"@);
        }
    }
    dir
}

/// Where a preset's file is cached, where its download is staged, and
/// where it is fetched from.
pub struct ModelPaths {
    /// Final location of the model file.
    pub model_path: String,
    /// Temporary file the download is written to before it is moved into place.
    pub temp_path: String,
    /// Download URL.
    pub url: String,
}

/// Where the components of a '/'-separated path begin, as `std::path`
/// reads it: after the root separator, or after a leading "." component,
/// which are kept apart from the other components.
pub open spec fn body_start(p: Seq<char>) -> int {
    if p.len() > 0 && p[0] == '/' {
        1
    } else if p.len() > 0 && p[0] == '.' && (p.len() == 1 || p[1] == '/') {
        1
    } else {
        0
    }
}

/// The index just past the last '/' in `p[lo..end]`, or `lo` if there is none:
/// where the last component of `p[..end]` begins.
pub open spec fn last_sep_end(p: Seq<char>, lo: int, end: int) -> int
    decreases end - lo,
{
    if end <= lo {
        lo
    } else if p[end - 1] == '/' {
        end
    } else {
        last_sep_end(p, lo, end - 1)
    }
}

/// `last_sep_end` lies between its bounds, and what it skips holds no '/'.
pub proof fn lemma_last_sep_end_bounds(p: Seq<char>, lo: int, end: int)
    requires
        lo <= end,
    ensures
        lo <= last_sep_end(p, lo, end) <= end,
        forall|i: int| last_sep_end(p, lo, end) <= i < end ==> p[i] != '/',
        last_sep_end(p, lo, end) > lo ==> p[last_sep_end(p, lo, end) - 1] == '/',
    decreases end - lo,
{
    if end > lo && p[end - 1] != '/' {
        lemma_last_sep_end_bounds(p, lo, end - 1);
    }
}

/// The end of `p[..end]` once trailing separators and "." components are
/// dropped, as `std::path::Components` does from the back; it never goes
/// below the body start.
pub open spec fn trimmed_end(p: Seq<char>, end: int) -> int
    decreases end,
{
    let bs = body_start(p);
    if end <= bs {
        end
    } else {
        let cs = last_sep_end(p, bs, end);
        let comp = p.subrange(cs, end);
        if comp.len() == 0 || comp == seq!['.'] {
            proof {
                lemma_last_sep_end_bounds(p, bs, end);
            }
            trimmed_end(p, if cs > bs { cs - 1 } else { bs })
        } else {
            end
        }
    }
}

/// Trimming never moves past the start and never grows the text.
pub proof fn lemma_trimmed_end_bounds(p: Seq<char>, e: int)
    requires
        0 <= e,
    ensures
        0 <= trimmed_end(p, e) <= e,
    decreases e,
{
    let bs = body_start(p);
    if e > bs {
        lemma_last_sep_end_bounds(p, bs, e);
        let cs = last_sep_end(p, bs, e);
        let comp = p.subrange(cs, e);
        if comp.len() == 0 || comp == seq!['.'] {
            lemma_trimmed_end_bounds(p, if cs > bs { cs - 1 } else { bs });
        }
    }
}

/// A path with a last component has a strictly shorter parent.
pub proof fn lemma_parent_end_shrinks(a: Seq<char>)
    requires
        name_end(a) > body_start(a),
    ensures
        0 <= parent_end(a) < name_end(a) <= a.len(),
        body_start(a) <= name_start(a) <= name_end(a),
{
    lemma_trimmed_end_bounds(a, a.len() as int);
    let bs = body_start(a);
    lemma_last_sep_end_bounds(a, bs, name_end(a));
    let cs = name_start(a);
    lemma_trimmed_end_bounds(a, if cs > bs { cs - 1 } else { bs });
}

/// The end of the file name of `p`, trailing separators and "." dropped.
pub open spec fn name_end(p: Seq<char>) -> int {
    trimmed_end(p, p.len() as int)
}

/// The start of the last component of `p`.
pub open spec fn name_start(p: Seq<char>) -> int {
    last_sep_end(p, body_start(p), name_end(p))
}

/// `Path::file_name`: the last component when it is a normal one (not the
/// root, a leading ".", or "..").
pub open spec fn file_name(p: Seq<char>) -> Option<Seq<char>> {
    if name_end(p) <= body_start(p) {
        None
    } else {
        let n = p.subrange(name_start(p), name_end(p));
        if n == ".."@ {
            None
        } else {
            Some(n)
        }
    }
}

/// The length of the text `Path::parent` keeps of a path that has a file
/// name: everything before the last component, trimmed at its end.
pub open spec fn parent_end(p: Seq<char>) -> int {
    let bs = body_start(p);
    let cs = name_start(p);
    trimmed_end(p, if cs > bs { cs - 1 } else { bs })
}

/// The name a download is staged under, as `with_file_name` builds it: the
/// parent of the model path joined with the file name plus ".download"; a
/// path with no file name gets "model.bin.download" pushed onto it.
pub open spec fn staged_path(model_path: Seq<char>) -> Seq<char> {
    match file_name(model_path) {
        Some(n) => path_join(model_path.take(parent_end(model_path)), n + ".download"@),
        None => path_join(model_path, "model.bin.download"@),
    }
}

/// The body start of a path.
pub(crate) fn body_start_of(p: &str) -> (bs: usize)
    ensures
        bs == body_start(p@),
{
    let n = p.unicode_len();
    if n > 0 && p.get_char(0) == '/' {
        1
    } else if n > 0 && p.get_char(0) == '.' && (n == 1 || p.get_char(1) == '/') {
        1
    } else {
        0
    }
}

/// Finds where the last component of `p[..end]` begins, past `lo`.
pub(crate) fn last_sep_end_of(p: &str, lo: usize, end: usize) -> (r: usize)
    requires
        lo <= end <= p@.len(),
    ensures
        r == last_sep_end(p@, lo as int, end as int),
{
    let mut cut = end;
    while cut > lo && p.get_char(cut - 1) != '/'
        invariant
            lo <= cut <= end <= p@.len(),
            last_sep_end(p@, lo as int, end as int) == last_sep_end(p@, lo as int, cut as int),
        decreases cut,
    {
        cut = cut - 1;
    }
    cut
}

/// Drops trailing separators and "." components of `p[..end]`.
pub(crate) fn trim_end_of(p: &str, end: usize) -> (r: usize)
    requires
        end <= p@.len(),
    ensures
        r == trimmed_end(p@, end as int),
        r <= end,
{
    let bs = body_start_of(p);
    let mut e = end;
    loop
        invariant
            e <= end <= p@.len(),
            bs == body_start(p@),
            trimmed_end(p@, e as int) == trimmed_end(p@, end as int),
        decreases e,
    {
        if e <= bs {
            return e;
        }
        let cs = last_sep_end_of(p, bs, e);
        proof {
            lemma_last_sep_end_bounds(p@, bs as int, e as int);
        }
        let is_dot = e - cs == 1 && p.get_char(cs) == '.';
        if is_dot {
            assert(p@.subrange(cs as int, e as int) =~= seq!['.']);
        }
        if e - cs == 1 && !is_dot {
            assert(p@.subrange(cs as int, e as int)[0] != '.');
        }
        if cs == e || is_dot {
            e = if cs > bs { cs - 1 } else { bs };
        } else {
            assert(p@.subrange(cs as int, e as int).len() != 0);
            assert(p@.subrange(cs as int, e as int) != seq!['.']);
            return e;
        }
    }
}

/// Builds the stable temp file path next to the final model file, as
/// `model_path.with_file_name(file_name + ".download")` does.
pub fn temp_download_path(model_path: &str) -> (temp: String)
    ensures
        temp@ == staged_path(model_path@),
{
    proof {
        reveal_strlit("..");
    }
    let n = model_path.unicode_len();
    let bs = body_start_of(model_path);
    let e = trim_end_of(model_path, n);
    if e <= bs {
        return join_path(model_path, "model.bin.download");
    }
    let cs = last_sep_end_of(model_path, bs, e);
    proof {
        lemma_last_sep_end_bounds(model_path@, bs as int, e as int);
    }
    let name = model_path.substring_char(cs, e);
    if e - cs == 2 && model_path.get_char(cs) == '.' && model_path.get_char(cs + 1) == '.' {
        assert(name@ =~= ".."@);
        return join_path(model_path, "model.bin.download");
    }
    if e - cs == 2 {
        assert(name@ != ".."@ ) by {
            if name@ == ".."@ {
                assert(name@[0] == '.' && name@[1] == '.');
            }
        }
    }
    let pe = if cs > bs { cs - 1 } else { bs };
    let pend = trim_end_of(model_path, pe);
    let mut staged_name = String::from_str(name);
    staged_name.append(".download");
    let parent = model_path.substring_char(0, pend);
    assert(parent@ =~= model_path@.take(pend as int));
    join_path(parent, staged_name.as_str())
}

/// Computes where a preset is cached under a directory and where it comes from.
pub fn model_paths(size: ModelSize, model_dir: &str) -> (paths: ModelPaths)
    ensures
        paths.model_path@ == path_join(model_dir@, model_filename(size)),
        paths.temp_path@ == staged_path(paths.model_path@),
        paths.url@ == model_url_prefix() + model_filename(size),
{
    let model_path = join_path(model_dir, size.filename());
    let temp_path = temp_download_path(model_path.as_str());
    ModelPaths { model_path, temp_path, url: size.download_url() }
}


/// What trimming stops at past the body start is a real component: not
/// empty and not ".".
proof fn lemma_trimmed_end_shape(p: Seq<char>, end: int)
    requires
        0 <= end <= p.len(),
    ensures
        trimmed_end(p, end) > body_start(p) ==> {
            let t = trimmed_end(p, end);
            let comp = p.subrange(last_sep_end(p, body_start(p), t), t);
            comp.len() != 0 && comp != seq!['.']
        },
    decreases end,
{
    let bs = body_start(p);
    if end > bs {
        lemma_last_sep_end_bounds(p, bs, end);
        let cs = last_sep_end(p, bs, end);
        let comp = p.subrange(cs, end);
        if comp.len() == 0 || comp == seq!['.'] {
            lemma_trimmed_end_shape(p, if cs > bs { cs - 1 } else { bs });
        }
    }
}

/// `last_sep_end` only reads the text before `end`.
proof fn lemma_last_sep_end_prefix(p: Seq<char>, q: Seq<char>, lo: int, end: int)
    requires
        0 <= lo,
        0 <= end <= p.len(),
        end <= q.len(),
        p.take(end) == q.take(end),
    ensures
        last_sep_end(p, lo, end) == last_sep_end(q, lo, end),
    decreases end - lo,
{
    if end > lo {
        assert(p[end - 1] == p.take(end)[end - 1]);
        assert(q[end - 1] == q.take(end)[end - 1]);
        if p[end - 1] != '/' {
            assert(p.take(end - 1) =~= p.take(end).take(end - 1));
            assert(q.take(end - 1) =~= q.take(end).take(end - 1));
            lemma_last_sep_end_prefix(p, q, lo, end - 1);
        }
    }
}

/// Joining a file name `x` (no '/', not "." or "..") onto a directory text
/// makes `x` the file name of the result.
proof fn lemma_joined_file_name(b: Seq<char>, x: Seq<char>)
    requires
        x.len() > 2,
        forall|i: int| 0 <= i < x.len() ==> x[i] != '/',
    ensures
        file_name(path_join(b, x)) == Some(x),
        name_start(path_join(b, x)) == path_join(b, x).len() - x.len(),
        name_end(path_join(b, x)) == path_join(b, x).len(),
{
    reveal_strlit("..");
    let q = path_join(b, x);
    let pre = if b.len() == 0 { b } else if b.last() == '/' { b } else { b + seq!['/'] };
    assert(q =~= pre + x);
    let bs = body_start(q);
    assert(bs <= pre.len()) by {
        if pre.len() == 0 {
            assert(q[0] == x[0] && q[1] == x[1]);
        }
    }
    lemma_last_sep_skips(q, bs, pre.len() as int, q.len() as int);
    if pre.len() > bs {
        assert(q[pre.len() - 1] == '/');
    }
    assert(last_sep_end(q, bs, pre.len() as int) == pre.len());
    assert(q.subrange(pre.len() as int, q.len() as int) =~= x);
    assert(x != seq!['.']);
    assert(trimmed_end(q, q.len() as int) == q.len());
    assert(x != ".."@);
}

/// Staging keeps a model path's directory and suffixes its file name: for
/// every model path that has a file name, the staged path's file name is
/// that name plus ".download", its parent (as `Path::parent` reads it) is the
/// model path's parent, and it differs from the model path.
pub proof fn law_staged_is_sibling(m: Seq<char>)
    requires
        file_name(m) is Some,
    ensures
        file_name(staged_path(m)) == Some(file_name(m).unwrap() + ".download"@),
        staged_path(m).take(parent_end(staged_path(m))) == m.take(parent_end(m)),
        staged_path(m) != m,
{
    reveal_strlit(".download");
    let f = file_name(m).unwrap();
    let bm = body_start(m);
    lemma_trimmed_end_bounds(m, m.len() as int);
    lemma_trimmed_end_shape(m, m.len() as int);
    lemma_parent_end_shrinks(m);
    lemma_last_sep_end_bounds(m, bm, name_end(m));
    assert(f == m.subrange(name_start(m), name_end(m)));
    assert(forall|i: int| 0 <= i < f.len() ==> f[i] != '/');
    let x = f + ".download"@;
    assert forall|i: int| 0 <= i < x.len() implies x[i] != '/' by {
        if i >= f.len() {
            assert(x[i] == ".download"@[i - f.len()]);
        }
    }
    let cs = name_start(m);
    let y = if cs > bm { cs - 1 } else { bm };
    let t = parent_end(m);
    assert(t == trimmed_end(m, y));
    lemma_trimmed_end_bounds(m, y);
    lemma_trimmed_end_shape(m, y);
    let b = m.take(t);
    let s = path_join(b, x);
    assert(staged_path(m) == s);
    lemma_joined_file_name(b, x);
    // The parent of the staged path is `b` again.
    let pre = if b.len() == 0 { b } else if b.last() == '/' { b } else { b + seq!['/'] };
    assert(s =~= pre + x);
    assert(s.take(b.len() as int) =~= b);
    let bss = body_start(s);
    if b.len() == 0 {
        assert(parent_end(s) == 0);
    } else if b.last() == '/' {
        // Only the root ends a trimmed parent with a separator.
        if t > bm {
            let pcs = last_sep_end(m, bm, t);
            lemma_last_sep_end_bounds(m, bm, t);
            assert(m[t - 1] == m.subrange(pcs, t)[t - 1 - pcs]);
        }
        assert(t == 1 && m[0] == '/');
        assert(s[0] == '/');
        assert(bss == 1);
        assert(parent_end(s) == 1);
    } else {
        assert(name_start(s) == b.len() + 1);
        if b.len() <= bss {
        } else {
            // The body starts agree on the text the parent covers.
            if t >= 2 {
                assert(s[0] == m[0] && s[1] == m[1]);
                assert(bss == bm);
            } else {
                assert(t == 1);
                if t <= bm {
                    assert(m[0] == '.' || m[0] == '/');
                    assert(s[1] == '/');
                    assert(bss == 1);
                } else {
                    let pcs = last_sep_end(m, bm, t);
                    lemma_last_sep_end_bounds(m, bm, t);
                    assert(pcs == 0);
                    assert(m.subrange(0, 1) =~= seq![m[0]]);
                    assert(m[0] != '.' && m[0] != '/');
                    assert(bss == 0 && bm == 0);
                }
            }
            assert(t > bm);
            lemma_last_sep_end_prefix(s, m, bss, t);
            let pcs = last_sep_end(m, bm, t);
            lemma_last_sep_end_bounds(m, bm, t);
            assert(s.subrange(pcs, t) =~= m.subrange(pcs, t));
            assert(trimmed_end(s, t) == t);
        }
        assert(parent_end(s) == b.len());
    }
    assert(s.take(parent_end(s)) =~= b);
    assert(x.len() != f.len());
}

/// `path_join(b, f)` followed by more text is `path_join(b, f + x)`.
proof fn lemma_join_then_append(b: Seq<char>, f: Seq<char>, x: Seq<char>)
    ensures
        path_join(b, f + x) == path_join(b, f) + x,
{
    if b.len() == 0 {
    } else if b.last() == '/' {
        assert(b + (f + x) =~= (b + f) + x);
    } else {
        assert(b + seq!['/'] + (f + x) =~= (b + seq!['/'] + f) + x);
    }
}

/// A download is staged next to the model file it becomes, under the
/// model's file name with ".download" appended, whenever the model path is
/// already in the form `with_file_name` gives it (its directory part has no
/// repeated trailing separators or trailing "." components).
pub proof fn law_download_staged_next_to_model(dir: Seq<char>, size: ModelSize)
    requires
        path_join(
            path_join(dir, model_filename(size)).take(parent_end(path_join(dir, model_filename(size)))),
            model_filename(size),
        ) == path_join(dir, model_filename(size)),
    ensures
        file_name(path_join(dir, model_filename(size))) == Some(model_filename(size)),
        staged_path(path_join(dir, model_filename(size))) == path_join(dir, model_filename(size)) + ".download"@,
{
    let f = model_filename(size);
    reveal_strlit("ggml-tiny.en.bin");
    reveal_strlit("ggml-base.en.bin");
    reveal_strlit("ggml-small.en.bin");
    reveal_strlit("ggml-medium.en.bin");
    reveal_strlit("ggml-large-v3.bin");
    reveal_strlit("..");
    assert(forall|i: int| 0 <= i < f.len() ==> f[i] != '/');
    assert(f.len() > 2 && f[0] == 'g');
    let q = path_join(dir, f);
    let pre = if dir.len() == 0 { dir } else if dir.last() == '/' { dir } else { dir + seq!['/'] };
    assert(q =~= pre + f);
    let bs = body_start(q);
    assert(bs <= pre.len()) by {
        if pre.len() == 0 {
            assert(q[0] == 'g');
        }
    }
    // The last component of q is f.
    lemma_last_sep_skips(q, bs, pre.len() as int, q.len() as int);
    if pre.len() > bs {
        assert(q[pre.len() - 1] == '/');
    }
    assert(last_sep_end(q, bs, pre.len() as int) == pre.len());
    assert(last_sep_end(q, bs, q.len() as int) == pre.len());
    assert(q.subrange(pre.len() as int, q.len() as int) =~= f);
    assert(f != seq!['.']);
    assert(trimmed_end(q, q.len() as int) == q.len());
    assert(name_end(q) == q.len());
    assert(name_start(q) == pre.len());
    assert(f != ".."@);
    assert(file_name(q) == Some(f));
    lemma_join_then_append(q.take(parent_end(q)), f, ".download"@);
}

/// Separators only before `lo` leave the last component's start unchanged.
proof fn lemma_last_sep_skips(p: Seq<char>, lo: int, mid: int, end: int)
    requires
        lo <= mid <= end,
        forall|i: int| mid <= i < end ==> p[i] != '/',
    ensures
        last_sep_end(p, lo, end) == last_sep_end(p, lo, mid),
    decreases end - mid,
{
    if end > mid {
        lemma_last_sep_skips(p, lo, mid, end - 1);
    }
}

} // verus!
