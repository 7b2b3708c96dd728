//! The notebook-variant renderer for hosted notebooks: cells carry a
//! host-specific metadata block, and a manifest tracks every generated
//! notebook with its hosted URLs, grouped by category.

use vstd::prelude::*;
use crate::error::KbError;
use crate::generator::OutputGenerator;
use crate::json::{jstr, json_wf};
use crate::schema::Schema;
use crate::text::{
    before_first, dec_str, inc_sat, last_cut, sat_inc, spec_contains, spec_lines, spec_replaced,
    str_contains,
};

verus! {

/// Configuration for repository-hosted notebook URLs.
#[derive(Debug, Clone, PartialEq)]
pub struct ColabConfig {
    /// Repository host user or organisation.
    pub github_user: String,
    /// Repository name.
    pub github_repo: String,
    /// Branch, usually "main" or "master".
    pub github_branch: String,
    /// Path of the notebooks directory inside the repository.
    pub notebooks_path: String,
}

/// The hosted-runner URL of a notebook in the repository.
pub open spec fn colab_url_of(c: ColabConfig, category: Seq<char>, filename: Seq<char>) -> Seq<
    char,
> {
    "https://colab.research.google.com/github/"@ + c.github_user@ + "/"@ + c.github_repo@
        + "/blob/"@ + c.github_branch@ + "/"@ + c.notebooks_path@ + "/"@ + category + "/"@
        + filename
}

/// The plain repository URL of a notebook.
pub open spec fn github_url_of(c: ColabConfig, category: Seq<char>, filename: Seq<char>) -> Seq<
    char,
> {
    "https://github.com/"@ + c.github_user@ + "/"@ + c.github_repo@ + "/blob/"@ + c.github_branch@
        + "/"@ + c.notebooks_path@ + "/"@ + category + "/"@ + filename
}

impl ColabConfig {
    /// Creates a configuration.
    pub fn new(github_user: &str, github_repo: &str, github_branch: &str, notebooks_path: &str) -> (r:
        Self)
        ensures
            r.github_user@ == github_user@,
            r.github_repo@ == github_repo@,
            r.github_branch@ == github_branch@,
            r.notebooks_path@ == notebooks_path@,
    {
        ColabConfig {
            github_user: github_user.to_owned(),
            github_repo: github_repo.to_owned(),
            github_branch: github_branch.to_owned(),
            notebooks_path: notebooks_path.to_owned(),
        }
    }

    /// The URL that opens the notebook from the repository in the hosted
    /// runner.
    pub fn get_colab_url(&self, category: &str, filename: &str) -> (r: String)
        ensures
            r@ == colab_url_of(*self, category@, filename@),
    {
        let mut out = String::new();
        out.append("https://colab.research.google.com/github/");
        out.append(self.github_user.as_str());
        out.append("/");
        out.append(self.github_repo.as_str());
        out.append("/blob/");
        out.append(self.github_branch.as_str());
        out.append("/");
        out.append(self.notebooks_path.as_str());
        out.append("/");
        out.append(category);
        out.append("/");
        out.append(filename);
        proof {
            assert(out@ =~= colab_url_of(*self, category@, filename@));
        }
        out
    }

    /// The plain repository URL of the notebook.
    pub fn get_github_url(&self, category: &str, filename: &str) -> (r: String)
        ensures
            r@ == github_url_of(*self, category@, filename@),
    {
        let mut out = String::new();
        out.append("https://github.com/");
        out.append(self.github_user.as_str());
        out.append("/");
        out.append(self.github_repo.as_str());
        out.append("/blob/");
        out.append(self.github_branch.as_str());
        out.append("/");
        out.append(self.notebooks_path.as_str());
        out.append("/");
        out.append(category);
        out.append("/");
        out.append(filename);
        proof {
            assert(out@ =~= github_url_of(*self, category@, filename@));
        }
        out
    }
}

impl Default for ColabConfig {
    /// The stock configuration.
    fn default() -> (r: Self)
        ensures
            r.github_user@ == "AhmedMashour"@,
            r.github_repo@ == "mathhook-kb"@,
            r.github_branch@ == "master"@,
            r.notebooks_path@ == "colab-notebooks"@,
    {
        ColabConfig {
            github_user: "AhmedMashour".to_owned(),
            github_repo: "mathhook-kb".to_owned(),
            github_branch: "master".to_owned(),
            notebooks_path: "colab-notebooks".to_owned(),
        }
    }
}

/// Entry for one notebook in the manifest.
#[derive(Debug, Clone, PartialEq)]
pub struct NotebookEntry {
    pub filename: String,
    /// Topic from the schema (e.g. `calculus.derivative`).
    pub topic: String,
    pub title: String,
    /// Category folder: the first topic segment.
    pub category: String,
    /// URL that opens the notebook in the hosted runner.
    pub colab_url: String,
    /// Repository URL of the notebook source.
    pub github_url: String,
}

/// Lexicographic order on character sequences by code point; agrees with
/// the byte order of their UTF-8 encodings.
pub open spec fn lex_le(a: Seq<char>, b: Seq<char>) -> bool
    decreases a.len(),
{
    if a.len() == 0 {
        true
    } else if b.len() == 0 {
        false
    } else if (a[0] as u32) < (b[0] as u32) {
        true
    } else if (a[0] as u32) > (b[0] as u32) {
        false
    } else {
        lex_le(a.drop_first(), b.drop_first())
    }
}

/// Whether `a` orders at or before `b` lexicographically.
pub fn str_le(a: &str, b: &str) -> (r: bool)
    ensures
        r == lex_le(a@, b@),
{
    let n = a.unicode_len();
    let m = b.unicode_len();
    let mut i: usize = 0;
    proof {
        assert(a@.skip(0) =~= a@);
        assert(b@.skip(0) =~= b@);
    }
    loop
        invariant_except_break
            n == a@.len(),
            m == b@.len(),
            i <= n,
            i <= m,
            lex_le(a@, b@) == lex_le(a@.skip(i as int), b@.skip(i as int)),
        ensures
            lex_le(a@, b@) == lex_le(a@.skip(i as int), b@.skip(i as int)),
            i <= n && i <= m,
            (i < n && i < m) ==> a@[i as int] != b@[i as int],
        decreases n - i,
    {
        if i >= n || i >= m {
            break ;
        }
        let ca = a.get_char(i);
        let cb = b.get_char(i);
        if ca != cb {
            break ;
        }
        proof {
            assert(a@.skip(i as int).drop_first() =~= a@.skip(i + 1));
            assert(b@.skip(i as int).drop_first() =~= b@.skip(i + 1));
            assert(a@.skip(i as int)[0] == a@[i as int]);
            assert(b@.skip(i as int)[0] == b@[i as int]);
        }
        i = i + 1;
    }
    if i >= n {
        proof {
            assert(a@.skip(i as int).len() == 0);
        }
        true
    } else if i >= m {
        proof {
            assert(b@.skip(i as int).len() == 0);
            assert(a@.skip(i as int).len() > 0);
        }
        false
    } else {
        let ca = a.get_char(i);
        let cb = b.get_char(i);
        proof {
            assert(a@.skip(i as int)[0] == a@[i as int]);
            assert(b@.skip(i as int)[0] == b@[i as int]);
        }
        (ca as u32) < (cb as u32)
    }
}

/// The position where `x` is inserted into a sorted sequence: after every
/// element at or below it.
pub open spec fn insert_pos(sorted: Seq<Seq<char>>, x: Seq<char>, from: int) -> int
    decreases sorted.len() - from,
{
    if from < 0 || from >= sorted.len() {
        sorted.len() as int
    } else if lex_le(sorted[from], x) {
        insert_pos(sorted, x, from + 1)
    } else {
        from
    }
}

/// Stable insertion of `x` into a sorted sequence.
pub open spec fn insert_lex(sorted: Seq<Seq<char>>, x: Seq<char>) -> Seq<Seq<char>> {
    sorted.insert(insert_pos(sorted, x, 0), x)
}

/// Insertion sort of a key sequence, stable and deterministic.
pub open spec fn sort_lex(keys: Seq<Seq<char>>) -> Seq<Seq<char>>
    decreases keys.len(),
{
    if keys.len() == 0 {
        Seq::empty()
    } else {
        insert_lex(sort_lex(keys.drop_last()), keys.last())
    }
}

/// The key views of the manifest's category list.
pub open spec fn category_keys(cats: Seq<(String, Vec<NotebookEntry>)>) -> Seq<Seq<char>> {
    cats.map_values(|p: (String, Vec<NotebookEntry>)| p.0@)
}

/// Index of the bucket with the given key at or after `from`, or the list
/// length when absent.
pub open spec fn key_index(cats: Seq<(String, Vec<NotebookEntry>)>, key: Seq<char>, from: int) -> int
    decreases cats.len() - from,
{
    if from < 0 || from >= cats.len() {
        cats.len() as int
    } else if cats[from].0@ == key {
        from
    } else {
        key_index(cats, key, from + 1)
    }
}

/// What `add` guarantees: the entry lands at the end of its category's
/// bucket; an unseen category opens a new bucket at the end; everything
/// else is unchanged.
pub open spec fn add_post(
    om: ColabManifest,
    nm: ColabManifest,
    topic: Seq<char>,
    title: Seq<char>,
    filename: Seq<char>,
) -> bool {
    let cat = before_first(topic, '.');
    let ki = key_index(om.categories@, cat, 0);
    let fcats = nm.categories@;
    let ocats = om.categories@;
    &&& (ki < ocats.len() ==> {
        &&& fcats == ocats.update(ki, fcats[ki])
        &&& fcats[ki].0 == ocats[ki].0
        &&& fcats[ki].1@.len() == ocats[ki].1@.len() + 1
        &&& fcats[ki].1@.drop_last() == ocats[ki].1@
        &&& entry_ok(fcats[ki].1@.last(), om.config, topic, title, filename)
    })
    &&& (ki == ocats.len() ==> {
        &&& fcats.len() == ocats.len() + 1
        &&& fcats.drop_last() == ocats
        &&& fcats.last().0@ == cat
        &&& fcats.last().1@.len() == 1
        &&& entry_ok(fcats.last().1@[0], om.config, topic, title, filename)
    })
}

/// Manifest tracking all generated hosted notebooks, grouped by category in
/// first-seen order, with unique category keys.
#[derive(Debug, Clone, PartialEq)]
pub struct ColabManifest {
    /// Configuration used to build the URLs.
    pub config: ColabConfig,
    /// Total number of notebooks recorded.
    pub total_notebooks: usize,
    /// Notebooks per category, in first-seen category order.
    pub categories: Vec<(String, Vec<NotebookEntry>)>,
}

impl ColabManifest {
    /// Category keys are unique.
    pub open spec fn wf(&self) -> bool {
        forall|i: int, j: int|
            #![trigger category_keys(self.categories@)[i], category_keys(self.categories@)[j]]
            0 <= i < j < self.categories@.len() ==> category_keys(self.categories@)[i]
                != category_keys(self.categories@)[j]
    }

    /// Creates an empty manifest with the given configuration.
    pub fn new(config: ColabConfig) -> (r: Self)
        ensures
            r.config == config,
            r.total_notebooks == 0,
            r.categories@.len() == 0,
            r.wf(),
    {
        ColabManifest { config, total_notebooks: 0, categories: Vec::new() }
    }

    /// The entries of one category, when it exists.
    pub fn category_entries<'a>(&'a self, name: &str) -> (r: Option<&'a Vec<NotebookEntry>>)
        ensures
            match r {
                Some(v) => key_index(self.categories@, name@, 0) < self.categories@.len() && *v
                    == self.categories@[key_index(self.categories@, name@, 0)].1,
                None => key_index(self.categories@, name@, 0) == self.categories@.len(),
            },
    {
        let n = self.categories.len();
        let mut i: usize = 0;
        while i < n
            invariant
                n == self.categories@.len(),
                i <= n,
                key_index(self.categories@, name@, 0) == key_index(
                    self.categories@,
                    name@,
                    i as int,
                ),
            decreases n - i,
        {
            if crate::text::str_eq(self.categories[i].0.as_str(), name) {
                return Some(&self.categories[i].1);
            }
            i = i + 1;
        }
        None
    }

    /// Records one notebook: the category is the first topic segment; the
    /// entry carries both hosted URLs; the total saturates at the machine
    /// bound.
    pub fn add(&mut self, topic: &str, title: &str, filename: &str)
        requires
            old(self).wf(),
        ensures
            final(self).wf(),
            final(self).config == old(self).config,
            final(self).total_notebooks as nat == sat_inc(old(self).total_notebooks as nat),
            add_post(*old(self), *final(self), topic@, title@, filename@),
    {
        let category = crate::text::before_first_char(topic, '.');
        let colab_url = self.config.get_colab_url(category.as_str(), filename);
        let github_url = self.config.get_github_url(category.as_str(), filename);
        let entry = NotebookEntry {
            filename: filename.to_owned(),
            topic: topic.to_owned(),
            title: title.to_owned(),
            category: category.clone(),
            colab_url,
            github_url,
        };
        let ghost cat = before_first(topic@, '.');
        let ghost ocats = old(self).categories@;
        let n = self.categories.len();
        let mut i: usize = 0;
        while i < n
            invariant
                self.categories@ == ocats,
                ocats == old(self).categories@,
                old(self).wf(),
                self.config == old(self).config,
                self.total_notebooks == old(self).total_notebooks,
                n == ocats.len(),
                i <= n,
                key_index(ocats, cat, 0) == key_index(ocats, cat, i as int),
                category@ == cat,
                cat == before_first(topic@, '.'),
                entry_ok(entry, old(self).config, topic@, title@, filename@),
            decreases n - i,
        {
            if crate::text::str_eq(self.categories[i].0.as_str(), category.as_str()) {
                proof {
                    assert(key_index(ocats, cat, i as int) == i as int);
                }
                let mut pair = self.categories.remove(i);
                let ghost p0 = pair;
                pair.1.push(entry);
                self.categories.insert(i, pair);
                self.total_notebooks = inc_sat(self.total_notebooks);
                proof {
                    let fcats = self.categories@;
                    assert(p0 == ocats[i as int]);
                    assert(fcats.len() == ocats.len());
                    assert forall|k: int| 0 <= k < ocats.len() && k != i as int implies fcats[k]
                        == ocats[k] by {
                        if k < i as int {
                            assert(fcats[k] == ocats.remove(i as int)[k]);
                        } else {
                            assert(fcats[k] == ocats.remove(i as int)[k - 1]);
                        }
                    };
                    assert(fcats[i as int].0 == ocats[i as int].0);
                    assert(fcats[i as int].1@ =~= ocats[i as int].1@.push(entry));
                    assert forall|k: int| 0 <= k < fcats.len() implies category_keys(fcats)[k]
                        == category_keys(ocats)[k] by {
                        if k != i as int {
                            assert(fcats[k] == ocats[k]);
                        } else {
                            assert(fcats[k].0 == ocats[k].0);
                        }
                    };
                    assert(category_keys(fcats) =~= category_keys(ocats));
                    assert forall|x: int, y: int| 0 <= x < y < fcats.len() implies category_keys(
                        fcats,
                    )[x] != category_keys(fcats)[y] by {
                        assert(category_keys(old(self).categories@)[x] != category_keys(
                            old(self).categories@,
                        )[y]);
                    };
                    assert(self.wf());
                    assert(fcats[i as int].1@.last() == entry);
                    assert(key_index(old(self).categories@, cat, 0) == i as int);
                    assert(self.categories@ =~= old(self).categories@.update(
                        i as int,
                        self.categories@[i as int],
                    ));
                    assert(self.categories@[i as int].1@.drop_last() =~= old(
                        self,
                    ).categories@[i as int].1@);
                    assert(add_post(*old(self), *self, topic@, title@, filename@));
                }
                return ;
            }
            proof {
                assert(ocats[i as int].0@ != cat);
            }
            i = i + 1;
        }
        proof {
            assert(key_index(ocats, cat, 0) == ocats.len());
        }
        let mut bucket: Vec<NotebookEntry> = Vec::new();
        bucket.push(entry);
        self.categories.push((category, bucket));
        self.total_notebooks = inc_sat(self.total_notebooks);
        proof {
            let fcats = self.categories@;
            assert(fcats.len() == ocats.len() + 1);
            assert(forall|k: int| 0 <= k < ocats.len() ==> #[trigger] fcats[k] == ocats[k]);
            assert(fcats.last().0@ == cat);
            assert(fcats.last().1@.len() == 1);
            assert(entry_ok(fcats.last().1@[0], old(self).config, topic@, title@, filename@));
            assert(self.wf()) by {
                assert(forall|k: int|
                    0 <= k < ocats.len() ==> category_keys(fcats)[k] == category_keys(ocats)[k]);
                assert(category_keys(fcats).last() == cat);
                assert forall|a: int, b: int|
                    #![trigger category_keys(fcats)[a], category_keys(fcats)[b]]
                    0 <= a < b < fcats.len() implies category_keys(fcats)[a] != category_keys(
                    fcats,
                )[b] by {
                    if b == fcats.len() - 1 {
                        lemma_key_index_ge(ocats, cat, 0, a);
                    } else {
                        assert(category_keys(old(self).categories@)[a] != category_keys(
                            old(self).categories@,
                        )[b]);
                    }
                };
            };
            assert(self.categories@.drop_last() =~= old(self).categories@);
            assert(add_post(*old(self), *self, topic@, title@, filename@));
        }
    }

    /// The category keys, sorted lexicographically.
    pub fn sorted_categories(&self) -> (r: Vec<String>)
        ensures
            r@.map_values(|x: String| x@) == sort_lex(category_keys(self.categories@)),
    {
        let mut r: Vec<String> = Vec::new();
        let n = self.categories.len();
        let mut i: usize = 0;
        while i < n
            invariant
                n == self.categories@.len(),
                i <= n,
                r@.map_values(|x: String| x@) == sort_lex(
                    category_keys(self.categories@).take(i as int),
                ),
                r@.len() == i,
            decreases n - i,
        {
            let key = &self.categories[i].0;
            let rn = r.len();
            let mut pos: usize = 0;
            loop
                invariant_except_break
                    rn == r@.len(),
                    pos <= rn,
                    insert_pos(r@.map_values(|x: String| x@), key@, 0) == insert_pos(
                        r@.map_values(|x: String| x@),
                        key@,
                        pos as int,
                    ),
                ensures
                    pos <= rn,
                    insert_pos(r@.map_values(|x: String| x@), key@, 0) == pos as int,
                decreases rn - pos,
            {
                if pos >= rn {
                    break ;
                }
                if !str_le(r[pos].as_str(), key.as_str()) {
                    proof {
                        assert(r@.map_values(|x: String| x@)[pos as int] == r@[pos as int]@);
                    }
                    break ;
                }
                proof {
                    assert(r@.map_values(|x: String| x@)[pos as int] == r@[pos as int]@);
                }
                pos = pos + 1;
            }
            let ghost old_views = r@.map_values(|x: String| x@);
            r.insert(pos, key.clone());
            i = i + 1;
            proof {
                assert(r@.map_values(|x: String| x@) =~= old_views.insert(pos as int, key@));
                assert(category_keys(self.categories@).take(i as int).drop_last() =~= category_keys(
                    self.categories@,
                ).take(i - 1));
                assert(category_keys(self.categories@).take(i as int).last() == key@);
                assert(r@.map_values(|x: String| x@) =~= sort_lex(
                    category_keys(self.categories@).take(i as int),
                ));
            }
        }
        proof {
            assert(category_keys(self.categories@).take(n as int) =~= category_keys(
                self.categories@,
            ));
        }
        r
    }
}

/// The fields an added manifest entry must carry.
pub open spec fn entry_ok(
    e: NotebookEntry,
    config: ColabConfig,
    topic: Seq<char>,
    title: Seq<char>,
    filename: Seq<char>,
) -> bool {
    &&& e.filename@ == filename
    &&& e.topic@ == topic
    &&& e.title@ == title
    &&& e.category@ == before_first(topic, '.')
    &&& e.colab_url@ == colab_url_of(config, before_first(topic, '.'), filename)
    &&& e.github_url@ == github_url_of(config, before_first(topic, '.'), filename)
}

proof fn lemma_key_index_ge(
    cats: Seq<(String, Vec<NotebookEntry>)>,
    key: Seq<char>,
    from: int,
    at: int,
)
    requires
        0 <= from <= at < cats.len(),
        key_index(cats, key, from) == cats.len(),
    ensures
        cats[at].0@ != key,
        category_keys(cats)[at] != key,
    decreases cats.len() - from,
{
    if from < at {
        assert(cats[from].0@ != key);
        lemma_key_index_ge(cats, key, from + 1, at);
    } else {
        assert(cats[at].0@ != key);
    }
}


/// The uppercase form of an ASCII lowercase letter; other characters are
/// unchanged.
pub open spec fn upper_ascii(c: char) -> char {
    if c == 'a' {
        'A'
    } else if c == 'b' {
        'B'
    } else if c == 'c' {
        'C'
    } else if c == 'd' {
        'D'
    } else if c == 'e' {
        'E'
    } else if c == 'f' {
        'F'
    } else if c == 'g' {
        'G'
    } else if c == 'h' {
        'H'
    } else if c == 'i' {
        'I'
    } else if c == 'j' {
        'J'
    } else if c == 'k' {
        'K'
    } else if c == 'l' {
        'L'
    } else if c == 'm' {
        'M'
    } else if c == 'n' {
        'N'
    } else if c == 'o' {
        'O'
    } else if c == 'p' {
        'P'
    } else if c == 'q' {
        'Q'
    } else if c == 'r' {
        'R'
    } else if c == 's' {
        'S'
    } else if c == 't' {
        'T'
    } else if c == 'u' {
        'U'
    } else if c == 'v' {
        'V'
    } else if c == 'w' {
        'W'
    } else if c == 'x' {
        'X'
    } else if c == 'y' {
        'Y'
    } else if c == 'z' {
        'Z'
    } else {
        c
    }
}

/// `s` with its first character capitalized when it is an ASCII lowercase
/// letter; category names come from validated lowercase topics.
pub open spec fn cap_of(s: Seq<char>) -> Seq<char> {
    if s.len() == 0 {
        s
    } else {
        seq![upper_ascii(s[0])] + s.drop_first()
    }
}

fn upper_ascii_exec(c: char) -> (r: char)
    ensures
        r == upper_ascii(c),
{
    if c == 'a' {
        'A'
    } else if c == 'b' {
        'B'
    } else if c == 'c' {
        'C'
    } else if c == 'd' {
        'D'
    } else if c == 'e' {
        'E'
    } else if c == 'f' {
        'F'
    } else if c == 'g' {
        'G'
    } else if c == 'h' {
        'H'
    } else if c == 'i' {
        'I'
    } else if c == 'j' {
        'J'
    } else if c == 'k' {
        'K'
    } else if c == 'l' {
        'L'
    } else if c == 'm' {
        'M'
    } else if c == 'n' {
        'N'
    } else if c == 'o' {
        'O'
    } else if c == 'p' {
        'P'
    } else if c == 'q' {
        'Q'
    } else if c == 'r' {
        'R'
    } else if c == 's' {
        'S'
    } else if c == 't' {
        'T'
    } else if c == 'u' {
        'U'
    } else if c == 'v' {
        'V'
    } else if c == 'w' {
        'W'
    } else if c == 'x' {
        'X'
    } else if c == 'y' {
        'Y'
    } else if c == 'z' {
        'Z'
    } else {
        c
    }
}

/// Capitalizes the first character of `s`.
pub fn capitalize(s: &str) -> (r: String)
    ensures
        r@ == cap_of(s@),
{
    let n = s.unicode_len();
    if n == 0 {
        let r = String::new();
        proof {
            assert(r@ =~= cap_of(s@));
        }
        return r;
    }
    let mut out = String::new();
    let u = upper_ascii_exec(s.get_char(0));
    crate::text::push_char(&mut out, u);
    let rest = s.substring_char(1, n);
    out.append(rest);
    proof {
        assert(out@ =~= cap_of(s@));
    }
    out
}

/// One row of the main manifest readme.
pub open spec fn readme_row(nb: NotebookEntry) -> Seq<char> {
    "| "@ + nb.title@
        + " | [![Open In Colab](https://colab.research.google.com/assets/colab-badge.svg)]("@
        + nb.colab_url@ + ") |\n"@
}

/// The rows of one category table.
pub open spec fn readme_rows(nbs: Seq<NotebookEntry>, n: int) -> Seq<char>
    decreases n,
{
    if n <= 0 {
        Seq::empty()
    } else {
        readme_rows(nbs, n - 1) + readme_row(nbs[n - 1])
    }
}

/// The bucket of a category key, or empty when the key is absent.
pub open spec fn bucket_of(m: ColabManifest, key: Seq<char>) -> Seq<NotebookEntry> {
    if key_index(m.categories@, key, 0) < m.categories@.len() {
        m.categories@[key_index(m.categories@, key, 0)].1@
    } else {
        Seq::empty()
    }
}

/// One category section of the main readme.
pub open spec fn readme_section(m: ColabManifest, key: Seq<char>) -> Seq<char> {
    "### "@ + cap_of(key) + "\n\n"@ + "| Topic | Open in Colab |\n"@ + "|-------|---------------|\n"@
        + readme_rows(bucket_of(m, key), bucket_of(m, key).len() as int) + "\n"@
}

/// The category sections in sorted-key order.
pub open spec fn readme_sections(m: ColabManifest, keys: Seq<Seq<char>>, n: int) -> Seq<char>
    decreases n,
{
    if n <= 0 {
        Seq::empty()
    } else {
        readme_sections(m, keys, n - 1) + readme_section(m, keys[n - 1])
    }
}

/// The whole main readme of the notebooks directory.
pub open spec fn readme_text(m: ColabManifest) -> Seq<char> {
    "# MathHook Colab Notebooks\n\n"@
        + "Interactive Google Colab notebooks for learning MathHook symbolic mathematics.\n\n"@
        + "Click any **Open in Colab** badge to launch the notebook instantly - no setup required!\n\n"@
        + "## Categories\n\n"@ + readme_sections(
        m,
        sort_lex(category_keys(m.categories@)),
        sort_lex(category_keys(m.categories@)).len() as int,
    ) + "---\n\n*Auto-generated from MathHook Knowledge Base schemas*\n"@
}

/// One row of a category readme.
pub open spec fn cat_readme_row(nb: NotebookEntry) -> Seq<char> {
    "| "@ + nb.title@ + " | "@ + nb.topic@
        + " | [![Open In Colab](https://colab.research.google.com/assets/colab-badge.svg)]("@
        + nb.colab_url@ + ") |\n"@
}

/// The rows of a category readme.
pub open spec fn cat_readme_rows(nbs: Seq<NotebookEntry>, n: int) -> Seq<char>
    decreases n,
{
    if n <= 0 {
        Seq::empty()
    } else {
        cat_readme_rows(nbs, n - 1) + cat_readme_row(nbs[n - 1])
    }
}

/// The whole readme of one category directory.
pub open spec fn category_readme_text(key: Seq<char>, nbs: Seq<NotebookEntry>) -> Seq<char> {
    "# "@ + cap_of(key) + " Notebooks\n\n"@ + "MathHook "@ + cap_of(key)
        + " tutorials for Google Colab.\n\n"@ + "## Notebooks\n\n"@
        + "| Topic | Description | Open in Colab |\n"@ + "|-------|-------------|---------------|\n"@
        + cat_readme_rows(nbs, nbs.len() as int)
}

impl ColabManifest {
    /// Renders the main readme for the notebooks directory, category
    /// sections in sorted order.
    #[verifier::rlimit(100)]
    pub fn generate_readme(&self) -> (r: String)
        ensures
            r@ == readme_text(*self),
    {
        let mut out = String::new();
        out.append("# MathHook Colab Notebooks\n\n");
        out.append("Interactive Google Colab notebooks for learning MathHook symbolic mathematics.\n\n");
        out.append(
            "Click any **Open in Colab** badge to launch the notebook instantly - no setup required!\n\n",
        );
        out.append("## Categories\n\n");
        let ghost head = out@;
        let sorted = self.sorted_categories();
        let n = sorted.len();
        let mut k: usize = 0;
        while k < n
            invariant
                n == sorted@.len(),
                sorted@.map_values(|x: String| x@) == sort_lex(category_keys(self.categories@)),
                k <= n,
                out@ == head + readme_sections(
                    *self,
                    sort_lex(category_keys(self.categories@)),
                    k as int,
                ),
            decreases n - k,
        {
            let key = &sorted[k];
            out.append("### ");
            let cap = capitalize(key.as_str());
            out.append(cap.as_str());
            out.append("\n\n");
            out.append("| Topic | Open in Colab |\n");
            out.append("|-------|---------------|\n");
            let ghost mid = out@;
            match self.category_entries(key.as_str()) {
                Some(bucket) => {
                    let bn = bucket.len();
                    let mut j: usize = 0;
                    while j < bn
                        invariant
                            bn == bucket@.len(),
                            j <= bn,
                            out@ == mid + readme_rows(bucket@, j as int),
                        decreases bn - j,
                    {
                        out.append("| ");
                        out.append(bucket[j].title.as_str());
                        out.append(
                            " | [![Open In Colab](https://colab.research.google.com/assets/colab-badge.svg)](",
                        );
                        out.append(bucket[j].colab_url.as_str());
                        out.append(") |\n");
                        j = j + 1;
                        proof {
                            assert(out@ =~= mid + readme_rows(bucket@, j as int));
                        }
                    }
                    proof {
                        assert(bucket@ == bucket_of(*self, key@));
                    }
                },
                None => {
                    proof {
                        assert(bucket_of(*self, key@) =~= Seq::<NotebookEntry>::empty());
                    }
                },
            }
            out.append("\n");
            k = k + 1;
            proof {
                assert(sort_lex(category_keys(self.categories@))[k - 1] == key@);
                assert(out@ =~= head + readme_sections(
                    *self,
                    sort_lex(category_keys(self.categories@)),
                    k as int,
                ));
            }
        }
        out.append("---\n\n*Auto-generated from MathHook Knowledge Base schemas*\n");
        proof {
            assert(out@ =~= readme_text(*self));
        }
        out
    }

    /// Renders the readme of one category, when that category exists.
    pub fn generate_category_readme(&self, category: &str) -> (r: Option<String>)
        ensures
            match r {
                Some(text) => key_index(self.categories@, category@, 0) < self.categories@.len()
                    && text@ == category_readme_text(category@, bucket_of(*self, category@)),
                None => key_index(self.categories@, category@, 0) == self.categories@.len(),
            },
    {
        let bucket = match self.category_entries(category) {
            Some(b) => b,
            None => {
                return None;
            },
        };
        let mut out = String::new();
        out.append("# ");
        let cap = capitalize(category);
        out.append(cap.as_str());
        out.append(" Notebooks\n\n");
        out.append("MathHook ");
        out.append(cap.as_str());
        out.append(" tutorials for Google Colab.\n\n");
        out.append("## Notebooks\n\n");
        out.append("| Topic | Description | Open in Colab |\n");
        out.append("|-------|-------------|---------------|\n");
        let ghost mid = out@;
        let bn = bucket.len();
        let mut j: usize = 0;
        while j < bn
            invariant
                bn == bucket@.len(),
                j <= bn,
                out@ == mid + cat_readme_rows(bucket@, j as int),
            decreases bn - j,
        {
            out.append("| ");
            out.append(bucket[j].title.as_str());
            out.append(" | ");
            out.append(bucket[j].topic.as_str());
            out.append(
                " | [![Open In Colab](https://colab.research.google.com/assets/colab-badge.svg)](",
            );
            out.append(bucket[j].colab_url.as_str());
            out.append(") |\n");
            j = j + 1;
            proof {
                assert(out@ =~= mid + cat_readme_rows(bucket@, j as int));
            }
        }
        proof {
            assert(bucket@ == bucket_of(*self, category@));
            assert(out@ =~= category_readme_text(category@, bucket_of(*self, category@)));
        }
        Some(out)
    }
}


/// One hosted-notebook cell: markdown or code, its metadata id, and its
/// source strings.
#[derive(Debug, Clone, PartialEq)]
pub struct ColabCell {
    pub is_code: bool,
    pub id: String,
    pub source: Vec<String>,
}

/// The abstract value of a hosted-notebook cell.
pub struct CCell {
    pub is_code: bool,
    pub id: Seq<char>,
    pub source: Seq<Seq<char>>,
}

impl View for ColabCell {
    type V = CCell;

    open spec fn view(&self) -> CCell {
        CCell {
            is_code: self.is_code,
            id: self.id@,
            source: self.source@.map_values(|x: String| x@),
        }
    }
}

/// The notebook filename of a schema in this format.
pub open spec fn colab_filename(topic: Seq<char>) -> Seq<char> {
    spec_replaced(topic, '.', '-') + ".colab.ipynb"@
}

/// The header cell: title, description, and the open-in-runner badge.
pub open spec fn colab_header_cell(cfg: ColabConfig, s: Schema) -> CCell {
    CCell {
        is_code: false,
        id: "header"@,
        source: seq![
            "# "@ + s.title@ + "\n"@,
            "\n"@,
            s.description@ + "\n"@,
            "\n"@,
            "[![Open In Colab](https://colab.research.google.com/assets/colab-badge.svg)]("@
                + colab_url_of(cfg, before_first(s.topic@, '.'), colab_filename(s.topic@)) + ")\n"@,
        ],
    }
}

/// The import line of the setup cell: everything before the last dot of
/// the Python code reference, when that module path is non-empty.
pub open spec fn setup_import_lines(s: Schema) -> Seq<Seq<char>> {
    match s.code_refs {
        Some(cr) => {
            let cut = last_cut(cr.python@, '.');
            if cut >= 1 && cr.python@.take(cut - 1).len() > 0 {
                seq!["from "@ + cr.python@.take(cut - 1) + " import *\n"@]
            } else {
                Seq::empty()
            }
        },
        None => Seq::empty(),
    }
}

/// The setup cell: install and import lines.
pub open spec fn colab_setup_cell(s: Schema) -> CCell {
    CCell {
        is_code: true,
        id: "setup"@,
        source: seq![
            "# Install MathHook (if not already installed)\n"@,
            "!pip install -q mathhook\n"@,
            "\n"@,
            "# Import MathHook\n"@,
            "from mathhook import symbol, expr\n"@,
        ] + setup_import_lines(s),
    }
}

/// The optional mathematical-definition cell.
pub open spec fn colab_math_cells(s: Schema) -> Seq<CCell> {
    match s.mathematical_definition {
        Some(m) => seq![
            CCell {
                is_code: false,
                id: "math-def"@,
                source: seq![
                    "## Mathematical Definition\n"@,
                    "\n"@,
                    "$$"@ + m@ + "$$\n"@,
                ],
            },
        ],
        None => Seq::empty(),
    }
}

/// The cells of one example: a numbered title cell, the executable code
/// cell, and the expected-output cell when one is given.
pub open spec fn colab_example_cells_at(e: crate::schema::Example, idx: int) -> Seq<CCell> {
    seq![
        CCell {
            is_code: false,
            id: "example-"@ + dec_str(idx as nat) + "-title"@,
            source: seq![
                "## Example "@ + dec_str((idx + 1) as nat) + ": "@ + e.title@ + "\n"@,
                "\n"@,
                e.explanation@ + "\n"@,
            ],
        },
        CCell {
            is_code: true,
            id: "example-"@ + dec_str(idx as nat) + "-code"@,
            source: crate::jupyter::cell_lines(e.code.python@),
        },
    ] + match e.expected_output {
        Some(o) => seq![
            CCell {
                is_code: false,
                id: "example-"@ + dec_str(idx as nat) + "-output"@,
                source: seq!["**Expected Output:**\n"@, "\n"@, "```\n"@ + o@ + "\n```\n"@],
            },
        ],
        None => Seq::empty(),
    }
}

/// The cells of the first `n` examples.
pub open spec fn colab_examples_cells(es: Seq<crate::schema::Example>, n: int) -> Seq<CCell>
    decreases n,
{
    if n <= 0 {
        Seq::empty()
    } else {
        colab_examples_cells(es, n - 1) + colab_example_cells_at(es[n - 1], n - 1)
    }
}

/// The section cells of a structured article.
pub open spec fn colab_section_cells(secs: Seq<crate::article::Section>, n: int) -> Seq<CCell>
    decreases n,
{
    if n <= 0 {
        Seq::empty()
    } else {
        colab_section_cells(secs, n - 1) + seq![
            CCell {
                is_code: false,
                id: "section-"@ + dec_str((n - 1) as nat),
                source: seq![
                    "## "@ + secs[n - 1].title@ + "\n"@,
                    "\n"@,
                    secs[n - 1].content@ + "\n"@,
                ],
            },
        ]
    }
}

/// The two cells of one exercise: the prompt and an empty solution cell.
pub open spec fn colab_exercise_cells(es: Seq<crate::article::Exercise>, n: int) -> Seq<CCell>
    decreases n,
{
    if n <= 0 {
        Seq::empty()
    } else {
        colab_exercise_cells(es, n - 1) + seq![
            CCell {
                is_code: false,
                id: "exercise-"@ + dec_str((n - 1) as nat),
                source: seq![
                    "### Exercise "@ + dec_str(n as nat) + "\n"@,
                    "\n"@,
                    es[n - 1].prompt@ + "\n"@,
                    "\n"@,
                    "**Difficulty:** "@ + es[n - 1].difficulty.spec_label() + "\n"@,
                ],
            },
            CCell {
                is_code: true,
                id: "exercise-"@ + dec_str((n - 1) as nat) + "-solution"@,
                source: seq!["# Your solution here\n"@],
            },
        ]
    }
}

/// The conclusion cells: a summary cell, then the exercise cells when any.
pub open spec fn colab_conclusion_cells(c: Option<crate::article::Conclusion>) -> Seq<CCell> {
    match c {
        Some(c) => seq![
            CCell {
                is_code: false,
                id: "conclusion"@,
                source: seq!["## Summary\n"@, "\n"@, c.summary@ + "\n"@],
            },
        ] + (if c.exercises@.len() > 0 {
            seq![
                CCell {
                    is_code: false,
                    id: "exercises"@,
                    source: seq![
                        "## Try It Yourself\n"@,
                        "\n"@,
                        "Complete these exercises to test your understanding:\n"@,
                    ],
                },
            ] + colab_exercise_cells(c.exercises@, c.exercises@.len() as int)
        } else {
            Seq::empty()
        }),
        None => Seq::empty(),
    }
}

/// The article cells, for either variant; none without an article.
pub open spec fn colab_article_cells(a: Option<crate::article::Article>) -> Seq<CCell> {
    match a {
        Some(a) => match a {
            crate::article::Article::Simple(sa) => seq![
                CCell {
                    is_code: false,
                    id: "article-content"@,
                    source: seq!["## Content\n"@, "\n"@, sa.content@ + "\n"@],
                },
            ],
            crate::article::Article::Structured(b) => colab_section_cells(
                (*b).sections@,
                (*b).sections@.len() as int,
            ) + colab_conclusion_cells((*b).conclusion),
        },
        None => Seq::empty(),
    }
}

/// The footer cell with the repository link.
pub open spec fn colab_footer_cell(cfg: ColabConfig, s: Schema) -> CCell {
    CCell {
        is_code: false,
        id: "footer"@,
        source: seq![
            "---\n"@,
            "\n"@,
            "**MathHook** - Symbolic Power \u{00B7} Educational Clarity \u{00B7} Native Speed\n"@,
            "\n"@,
            "[View on GitHub]("@ + github_url_of(
                cfg,
                before_first(s.topic@, '.'),
                colab_filename(s.topic@),
            ) + ") | "@,
            "[MathHook Documentation](https://mathhook.dev)\n"@,
        ],
    }
}

/// The whole cell sequence of the hosted notebook for a schema.
pub open spec fn colab_cells(cfg: ColabConfig, s: Schema) -> Seq<CCell> {
    seq![colab_header_cell(cfg, s), colab_setup_cell(s)] + colab_math_cells(s)
        + colab_examples_cells(s.examples@, s.examples@.len() as int) + colab_article_cells(
        s.article,
    ) + seq![colab_footer_cell(cfg, s)]
}

/// One cell as JSON, with its metadata id; code cells carry the null
/// execution count and empty outputs list.
pub open spec fn ccell_json(c: CCell) -> Seq<char> {
    if c.is_code {
        "    {\n      \"cell_type\": \"code\",\n      \"execution_count\": null,\n      \"metadata\": {\n        \"id\": "@
            + jstr(c.id) + "\n      },\n      \"outputs\": [],\n      \"source\": "@
            + crate::jupyter::jarr(c.source, "        "@, "      "@) + "\n    }"@
    } else {
        "    {\n      \"cell_type\": \"markdown\",\n      \"metadata\": {\n        \"id\": "@
            + jstr(c.id) + "\n      },\n      \"source\": "@ + crate::jupyter::jarr(
            c.source,
            "        "@,
            "      "@,
        ) + "\n    }"@
    }
}

/// The comma-separated cell array elements.
pub open spec fn ccells_json(cs: Seq<CCell>, n: int) -> Seq<char>
    decreases n,
{
    if n <= 0 {
        Seq::empty()
    } else if n == 1 {
        ccell_json(cs[0])
    } else {
        ccells_json(cs, n - 1) + ",\n"@ + ccell_json(cs[n - 1])
    }
}

/// The whole cell array.
pub open spec fn ccells_arr(cs: Seq<CCell>) -> Seq<char> {
    if cs.len() == 0 {
        "[]"@
    } else {
        "[\n"@ + ccells_json(cs, cs.len() as int) + "\n  ]"@
    }
}

/// The whole hosted-notebook JSON document.
pub open spec fn colab_notebook_json(title: Seq<char>, cs: Seq<CCell>) -> Seq<char> {
    "{\n  \"cells\": "@ + ccells_arr(cs)
        + ",\n  \"metadata\": {\n    \"colab\": {\n      \"collapsed_sections\": [],\n      \"name\": "@
        + jstr(title + " - MathHook"@)
        + ",\n      \"provenance\": [],\n      \"toc_visible\": true\n    },\n    \"kernelspec\": {\n      \"display_name\": \"Python 3\",\n      \"name\": \"python3\"\n    },\n    \"language_info\": {\n      \"name\": \"python\",\n      \"version\": \"3.10.0\"\n    }\n  },\n  \"nbformat\": 4,\n  \"nbformat_minor\": 0\n}"@
}

/// The output of the notebook-variant renderer for a schema.
pub open spec fn colab_output(cfg: ColabConfig, s: Schema) -> Seq<char> {
    colab_notebook_json(s.title@, colab_cells(cfg, s))
}


/// Builds a markdown cell.
fn md_ccell(id: &str, source: Vec<String>) -> (r: ColabCell)
    ensures
        r@.is_code == false,
        r@.id == id@,
        r@.source == source@.map_values(|x: String| x@),
{
    ColabCell { is_code: false, id: id.to_owned(), source }
}

/// Appends one cell's JSON to `out`.
fn append_ccell_json(out: &mut String, c: &ColabCell)
    ensures
        final(out)@ == old(out)@ + ccell_json(c@),
{
    if c.is_code {
        out.append(
            "    {\n      \"cell_type\": \"code\",\n      \"execution_count\": null,\n      \"metadata\": {\n        \"id\": ",
        );
        crate::json::append_json_string(out, c.id.as_str());
        out.append("\n      },\n      \"outputs\": [],\n      \"source\": ");
        crate::jupyter::append_jarr(out, &c.source, "        ", "      ");
        out.append("\n    }");
    } else {
        out.append(
            "    {\n      \"cell_type\": \"markdown\",\n      \"metadata\": {\n        \"id\": ",
        );
        crate::json::append_json_string(out, c.id.as_str());
        out.append("\n      },\n      \"source\": ");
        crate::jupyter::append_jarr(out, &c.source, "        ", "      ");
        out.append("\n    }");
    }
    proof {
        assert(out@ =~= old(out)@ + ccell_json(c@));
    }
}


/// Pushes a cell, tracking the abstract cell list.
fn push_cell(cells: &mut Vec<ColabCell>, c: ColabCell)
    ensures
        final(cells)@.map_values(|x: ColabCell| x@) == old(cells)@.map_values(
            |x: ColabCell| x@,
        ).push(c@),
{
    let ghost before = cells@.map_values(|x: ColabCell| x@);
    let ghost cv = c@;
    cells.push(c);
    proof {
        assert(cells@.map_values(|x: ColabCell| x@) =~= before.push(cv));
    }
}

/// Hosted-notebook generator.
#[derive(Debug, Clone, PartialEq)]
pub struct ColabGenerator {
    /// The URL configuration in use.
    pub config: ColabConfig,
}

impl ColabGenerator {
    /// Creates a generator with the stock configuration; never fails.
    pub fn new() -> (r: Result<Self, KbError>)
        ensures
            r matches Ok(g) && g.config.github_user@ == "AhmedMashour"@ && g.config.github_repo@
                == "mathhook-kb"@ && g.config.github_branch@ == "master"@
                && g.config.notebooks_path@ == "colab-notebooks"@,
    {
        Ok(ColabGenerator { config: Default::default() })
    }

    /// Creates a generator with the given configuration.
    pub fn with_config(config: ColabConfig) -> (r: Self)
        ensures
            r.config == config,
    {
        ColabGenerator { config }
    }

    /// The configuration in use.
    pub fn config(&self) -> (r: &ColabConfig)
        ensures
            r == &self.config,
    {
        &self.config
    }

    /// Builds the cell list for a schema.
    #[verifier::rlimit(100)]
    fn generate_cells(&self, schema: &Schema) -> (cells: Vec<ColabCell>)
        ensures
            cells@.map_values(|c: ColabCell| c@) == colab_cells(self.config, *schema),
    {
        let mut cells: Vec<ColabCell> = Vec::new();
        let category = crate::text::before_first_char(schema.topic.as_str(), '.');
        let mut filename = crate::text::replaced_string(schema.topic.as_str(), '.', '-');
        filename.append(".colab.ipynb");
        proof {
            assert(filename@ =~= colab_filename(schema.topic@));
        }
        let colab_url = self.config.get_colab_url(category.as_str(), filename.as_str());
        let github_url = self.config.get_github_url(category.as_str(), filename.as_str());
        let mut src: Vec<String> = Vec::new();
        let mut l1 = String::new();
        l1.append("# ");
        l1.append(schema.title.as_str());
        l1.append("\n");
        src.push(l1);
        src.push("\n".to_owned());
        let mut l3 = String::new();
        l3.append(schema.description.as_str());
        l3.append("\n");
        src.push(l3);
        src.push("\n".to_owned());
        let mut l5 = String::new();
        l5.append("[![Open In Colab](https://colab.research.google.com/assets/colab-badge.svg)](");
        l5.append(colab_url.as_str());
        l5.append(")\n");
        src.push(l5);
        let header = md_ccell("header", src);
        proof {
            assert(header@.source =~= colab_header_cell(self.config, *schema).source);
            assert(header@ == colab_header_cell(self.config, *schema));
        }
        push_cell(&mut cells, header);
        let mut setup: Vec<String> = Vec::new();
        setup.push("# Install MathHook (if not already installed)\n".to_owned());
        setup.push("!pip install -q mathhook\n".to_owned());
        setup.push("\n".to_owned());
        setup.push("# Import MathHook\n".to_owned());
        setup.push("from mathhook import symbol, expr\n".to_owned());
        if let Some(code_refs) = &schema.code_refs {
            let py = code_refs.python.as_str();
            let n = py.unicode_len();
            proof {
                crate::text::lemma_last_cut(py@, '.');
            }
            let mut cut: usize = 0;
            let mut i: usize = 0;
            while i < n
                invariant
                    n == py@.len(),
                    i <= n,
                    cut as int == last_cut(py@.take(i as int), '.'),
                    cut <= i,
                decreases n - i,
            {
                let ch = py.get_char(i);
                proof {
                    crate::text::lemma_last_cut_push_pub(py@.take(i as int), '.', py@[i as int]);
                    assert(py@.take(i as int).push(py@[i as int]) =~= py@.take(i + 1));
                }
                if ch == '.' {
                    cut = i + 1;
                }
                i = i + 1;
            }
            proof {
                assert(py@.take(n as int) =~= py@);
            }
            if cut >= 1 {
                let module = py.substring_char(0, cut - 1);
                if module.unicode_len() > 0 {
                    let mut line = String::new();
                    line.append("from ");
                    line.append(module);
                    line.append(" import *\n");
                    proof {
                        assert(py@.subrange(0, cut - 1) =~= py@.take(cut - 1));
                        assert(line@ =~= "from "@ + py@.take(cut - 1) + " import *\n"@);
                    }
                    setup.push(line);
                }
            }
        }
        let setup_cell = ColabCell { is_code: true, id: "setup".to_owned(), source: setup };
        proof {
            assert(setup_cell@.source =~= colab_setup_cell(*schema).source);
            assert(setup_cell@ == colab_setup_cell(*schema));
        }
        push_cell(&mut cells, setup_cell);
        let ghost base0 = cells@.map_values(|c: ColabCell| c@);
        proof {
            assert(base0 =~= seq![
                colab_header_cell(self.config, *schema),
                colab_setup_cell(*schema),
            ]);
        }
        if let Some(math_def) = &schema.mathematical_definition {
            let mut src: Vec<String> = Vec::new();
            src.push("## Mathematical Definition\n".to_owned());
            src.push("\n".to_owned());
            let mut l = String::new();
            l.append("$$");
            l.append(math_def.as_str());
            l.append("$$\n");
            src.push(l);
            let cell = md_ccell("math-def", src);
            proof {
                assert(cell@.source =~= colab_math_cells(*schema)[0].source);
                assert(cell@ == colab_math_cells(*schema)[0]);
            }
            push_cell(&mut cells, cell);
        }
        proof {
            assert(cells@.map_values(|c: ColabCell| c@) =~= base0 + colab_math_cells(*schema));
        }
        let ghost base1 = cells@.map_values(|c: ColabCell| c@);
        let ne = schema.examples.len();
        let mut idx: usize = 0;
        while idx < ne
            invariant
                ne == schema.examples@.len(),
                idx <= ne,
                cells@.map_values(|c: ColabCell| c@) == base1 + colab_examples_cells(
                    schema.examples@,
                    idx as int,
                ),
            decreases ne - idx,
        {
            let example = &schema.examples[idx];
            let mut tid = String::new();
            tid.append("example-");
            crate::text::append_u64(&mut tid, idx as u64);
            tid.append("-title");
            let mut src: Vec<String> = Vec::new();
            let mut l1 = String::new();
            l1.append("## Example ");
            crate::text::append_u64(&mut l1, (idx as u64) + 1);
            l1.append(": ");
            l1.append(example.title.as_str());
            l1.append("\n");
            src.push(l1);
            src.push("\n".to_owned());
            let mut l3 = String::new();
            l3.append(example.explanation.as_str());
            l3.append("\n");
            src.push(l3);
            let title_cell = ColabCell { is_code: false, id: tid, source: src };
            proof {
                assert(title_cell@.source =~= colab_example_cells_at(
                    schema.examples@[idx as int],
                    idx as int,
                )[0].source);
                assert(title_cell@.id =~= colab_example_cells_at(
                    schema.examples@[idx as int],
                    idx as int,
                )[0].id);
                assert(title_cell@ == colab_example_cells_at(
                    schema.examples@[idx as int],
                    idx as int,
                )[0]);
            }
            push_cell(&mut cells, title_cell);
            let mut cid = String::new();
            cid.append("example-");
            crate::text::append_u64(&mut cid, idx as u64);
            cid.append("-code");
            let code_src = crate::jupyter::source_lines_pub(example.code.python.as_str());
            let code_cell = ColabCell { is_code: true, id: cid, source: code_src };
            proof {
                assert(code_cell@.source =~= colab_example_cells_at(
                    schema.examples@[idx as int],
                    idx as int,
                )[1].source);
                assert(code_cell@.id =~= colab_example_cells_at(
                    schema.examples@[idx as int],
                    idx as int,
                )[1].id);
                assert(code_cell@ == colab_example_cells_at(
                    schema.examples@[idx as int],
                    idx as int,
                )[1]);
            }
            push_cell(&mut cells, code_cell);
            if let Some(output) = &example.expected_output {
                let mut oid = String::new();
                oid.append("example-");
                crate::text::append_u64(&mut oid, idx as u64);
                oid.append("-output");
                let mut src: Vec<String> = Vec::new();
                src.push("**Expected Output:**\n".to_owned());
                src.push("\n".to_owned());
                let mut l = String::new();
                l.append("```\n");
                l.append(output.as_str());
                l.append("\n```\n");
                src.push(l);
                let ocell = ColabCell { is_code: false, id: oid, source: src };
                proof {
                    assert(ocell@.source =~= colab_example_cells_at(
                        schema.examples@[idx as int],
                        idx as int,
                    )[2].source);
                    assert(ocell@.id =~= colab_example_cells_at(
                        schema.examples@[idx as int],
                        idx as int,
                    )[2].id);
                    assert(ocell@ == colab_example_cells_at(
                        schema.examples@[idx as int],
                        idx as int,
                    )[2]);
                }
                push_cell(&mut cells, ocell);
            }
            idx = idx + 1;
            proof {
                assert(cells@.map_values(|c: ColabCell| c@) =~= base1 + colab_examples_cells(
                    schema.examples@,
                    idx as int,
                ));
            }
        }
        let ghost base2 = cells@.map_values(|c: ColabCell| c@);
        if let Some(article) = &schema.article {
            self.add_article_cells(&mut cells, article);
        }
        proof {
            assert(cells@.map_values(|c: ColabCell| c@) =~= base2 + colab_article_cells(
                schema.article,
            ));
        }
        let mut src: Vec<String> = Vec::new();
        src.push("---\n".to_owned());
        src.push("\n".to_owned());
        src.push(
            "**MathHook** - Symbolic Power \u{00B7} Educational Clarity \u{00B7} Native Speed\n".to_owned(),
        );
        src.push("\n".to_owned());
        let mut l5 = String::new();
        l5.append("[View on GitHub](");
        l5.append(github_url.as_str());
        l5.append(") | ");
        src.push(l5);
        src.push("[MathHook Documentation](https://mathhook.dev)\n".to_owned());
        let footer = md_ccell("footer", src);
        proof {
            assert(footer@.source =~= colab_footer_cell(self.config, *schema).source);
            assert(footer@ == colab_footer_cell(self.config, *schema));
        }
        push_cell(&mut cells, footer);
        proof {
            assert(cells@.map_values(|c: ColabCell| c@) =~= colab_cells(self.config, *schema));
        }
        cells
    }

    /// Adds the article cells for either variant.
    #[verifier::rlimit(100)]
    fn add_article_cells(&self, cells: &mut Vec<ColabCell>, article: &crate::article::Article)
        ensures
            final(cells)@.map_values(|c: ColabCell| c@) == old(cells)@.map_values(
                |c: ColabCell| c@,
            ) + colab_article_cells(Some(*article)),
    {
        match article {
            crate::article::Article::Simple(simple) => {
                let mut src: Vec<String> = Vec::new();
                src.push("## Content\n".to_owned());
                src.push("\n".to_owned());
                let mut l = String::new();
                l.append(simple.content.as_str());
                l.append("\n");
                src.push(l);
                let cell = md_ccell("article-content", src);
                proof {
                    assert(cell@.source =~= colab_article_cells(Some(*article))[0].source);
                    assert(cell@ == colab_article_cells(Some(*article))[0]);
                }
                push_cell(cells, cell);
                proof {
                    assert(cells@.map_values(|c: ColabCell| c@) =~= old(cells)@.map_values(
                        |c: ColabCell| c@,
                    ) + colab_article_cells(Some(*article)));
                }
            },
            crate::article::Article::Structured(structured) => {
                let structured = &**structured;
                let ghost b0 = cells@.map_values(|c: ColabCell| c@);
                let ns = structured.sections.len();
                let mut k: usize = 0;
                while k < ns
                    invariant
                        ns == structured.sections@.len(),
                        k <= ns,
                        cells@.map_values(|c: ColabCell| c@) == b0 + colab_section_cells(
                            structured.sections@,
                            k as int,
                        ),
                    decreases ns - k,
                {
                    let section = &structured.sections[k];
                    let mut sid = String::new();
                    sid.append("section-");
                    crate::text::append_u64(&mut sid, k as u64);
                    let mut src: Vec<String> = Vec::new();
                    let mut l1 = String::new();
                    l1.append("## ");
                    l1.append(section.title.as_str());
                    l1.append("\n");
                    src.push(l1);
                    src.push("\n".to_owned());
                    let mut l3 = String::new();
                    l3.append(section.content.as_str());
                    l3.append("\n");
                    src.push(l3);
                    let cell = ColabCell { is_code: false, id: sid, source: src };
                    proof {
                        assert(cell@.source =~= colab_section_cells(
                            structured.sections@,
                            k + 1,
                        ).last().source);
                        assert(cell@.id =~= colab_section_cells(
                            structured.sections@,
                            k + 1,
                        ).last().id);
                        assert(cell@ == colab_section_cells(structured.sections@, k + 1).last());
                    }
                    push_cell(cells, cell);
                    k = k + 1;
                    proof {
                        assert(cells@.map_values(|c: ColabCell| c@) =~= b0 + colab_section_cells(
                            structured.sections@,
                            k as int,
                        ));
                    }
                }
                let ghost b1 = cells@.map_values(|c: ColabCell| c@);
                if let Some(conclusion) = &structured.conclusion {
                    let mut src: Vec<String> = Vec::new();
                    src.push("## Summary\n".to_owned());
                    src.push("\n".to_owned());
                    let mut l = String::new();
                    l.append(conclusion.summary.as_str());
                    l.append("\n");
                    src.push(l);
                    let cell = md_ccell("conclusion", src);
                    proof {
                        assert(cell@.source =~= colab_conclusion_cells(
                            structured.conclusion,
                        )[0].source);
                        assert(cell@ == colab_conclusion_cells(structured.conclusion)[0]);
                    }
                    push_cell(cells, cell);
                    if conclusion.exercises.len() > 0 {
                        let mut src: Vec<String> = Vec::new();
                        src.push("## Try It Yourself\n".to_owned());
                        src.push("\n".to_owned());
                        src.push("Complete these exercises to test your understanding:\n".to_owned());
                        let cell = md_ccell("exercises", src);
                        proof {
                            assert(cell@.source =~= colab_conclusion_cells(
                                structured.conclusion,
                            )[1].source);
                            assert(cell@ == colab_conclusion_cells(structured.conclusion)[1]);
                        }
                        push_cell(cells, cell);
                        let ghost b2 = cells@.map_values(|c: ColabCell| c@);
                        let nx = conclusion.exercises.len();
                        let mut k: usize = 0;
                        while k < nx
                            invariant
                                nx == conclusion.exercises@.len(),
                                k <= nx,
                                cells@.map_values(|c: ColabCell| c@) == b2 + colab_exercise_cells(
                                    conclusion.exercises@,
                                    k as int,
                                ),
                            decreases nx - k,
                        {
                            let exercise = &conclusion.exercises[k];
                            let mut xid = String::new();
                            xid.append("exercise-");
                            crate::text::append_u64(&mut xid, k as u64);
                            let mut src: Vec<String> = Vec::new();
                            let mut l1 = String::new();
                            l1.append("### Exercise ");
                            crate::text::append_u64(&mut l1, (k as u64) + 1);
                            l1.append("\n");
                            src.push(l1);
                            src.push("\n".to_owned());
                            let mut l3 = String::new();
                            l3.append(exercise.prompt.as_str());
                            l3.append("\n");
                            src.push(l3);
                            src.push("\n".to_owned());
                            let mut l5 = String::new();
                            l5.append("**Difficulty:** ");
                            l5.append(exercise.difficulty.label());
                            l5.append("\n");
                            src.push(l5);
                            let pcell = ColabCell { is_code: false, id: xid, source: src };
                            proof {
                                let spec2 = colab_exercise_cells(conclusion.exercises@, k + 1);
                                assert(pcell@.source =~= spec2[spec2.len() - 2].source);
                                assert(pcell@.id =~= spec2[spec2.len() - 2].id);
                                assert(pcell@ == spec2[spec2.len() - 2]);
                            }
                            push_cell(cells, pcell);
                            let mut scid = String::new();
                            scid.append("exercise-");
                            crate::text::append_u64(&mut scid, k as u64);
                            scid.append("-solution");
                            let mut ssrc: Vec<String> = Vec::new();
                            ssrc.push("# Your solution here\n".to_owned());
                            let scell = ColabCell { is_code: true, id: scid, source: ssrc };
                            proof {
                                let spec2 = colab_exercise_cells(conclusion.exercises@, k + 1);
                                assert(scell@.source =~= spec2.last().source);
                                assert(scell@.id =~= spec2.last().id);
                                assert(scell@ == spec2.last());
                            }
                            push_cell(cells, scell);
                            k = k + 1;
                            proof {
                                assert(cells@.map_values(|c: ColabCell| c@) =~= b2
                                    + colab_exercise_cells(conclusion.exercises@, k as int));
                            }
                        }
                    }
                }
                proof {
                    assert(cells@.map_values(|c: ColabCell| c@) =~= b1 + colab_conclusion_cells(
                        structured.conclusion,
                    ));
                    assert(cells@.map_values(|c: ColabCell| c@) =~= old(cells)@.map_values(
                        |c: ColabCell| c@,
                    ) + colab_article_cells(Some(*article)));
                }
            },
        }
    }
}

impl Default for ColabGenerator {
    /// The stock generator.
    fn default() -> (r: Self)
        ensures
            true,
    {
        ColabGenerator { config: Default::default() }
    }
}

impl OutputGenerator for ColabGenerator {
    open spec fn spec_name(&self) -> Seq<char> {
        "colab"@
    }

    open spec fn spec_extension(&self) -> Seq<char> {
        "colab.ipynb"@
    }

    open spec fn spec_generate(&self, schema: Schema) -> Seq<char> {
        colab_output(self.config, schema)
    }

    /// Valid output must parse as JSON and carry the format-version field,
    /// the host-specific metadata sub-block, and the cell list.
    open spec fn spec_validates(&self, output: Seq<char>) -> bool {
        json_wf(output) && spec_contains(output, "\"nbformat\""@) && spec_contains(
            output,
            "\"colab\""@,
        ) && spec_contains(output, "\"cells\""@)
    }

    fn name(&self) -> (r: &str) {
        "colab"
    }

    fn file_extension(&self) -> (r: &str) {
        "colab.ipynb"
    }

    fn generate(&self, schema: &Schema) -> (r: Result<String, KbError>) {
        let cells = self.generate_cells(schema);
        let mut out = String::new();
        out.append("{\n  \"cells\": ");
        let ghost mid = out@;
        let n = cells.len();
        if n == 0 {
            out.append("[]");
        } else {
            out.append("[\n");
            let mut j: usize = 0;
            while j < n
                invariant
                    n == cells@.len(),
                    n >= 1,
                    j <= n,
                    cells@.map_values(|c: ColabCell| c@) == colab_cells(self.config, *schema),
                    out@ == mid + "[\n"@ + ccells_json(
                        cells@.map_values(|c: ColabCell| c@),
                        j as int,
                    ),
                decreases n - j,
            {
                if j > 0 {
                    out.append(",\n");
                }
                append_ccell_json(&mut out, &cells[j]);
                j = j + 1;
                proof {
                    assert(out@ =~= mid + "[\n"@ + ccells_json(
                        cells@.map_values(|c: ColabCell| c@),
                        j as int,
                    ));
                }
            }
            out.append("\n  ]");
        }
        proof {
            assert(out@ =~= mid + ccells_arr(cells@.map_values(|c: ColabCell| c@)));
        }
        out.append(
            ",\n  \"metadata\": {\n    \"colab\": {\n      \"collapsed_sections\": [],\n      \"name\": ",
        );
        let mut nm = String::new();
        nm.append(schema.title.as_str());
        nm.append(" - MathHook");
        proof {
            assert(nm@ =~= schema.title@ + " - MathHook"@);
        }
        crate::json::append_json_string(&mut out, nm.as_str());
        out.append(
            ",\n      \"provenance\": [],\n      \"toc_visible\": true\n    },\n    \"kernelspec\": {\n      \"display_name\": \"Python 3\",\n      \"name\": \"python3\"\n    },\n    \"language_info\": {\n      \"name\": \"python\",\n      \"version\": \"3.10.0\"\n    }\n  },\n  \"nbformat\": 4,\n  \"nbformat_minor\": 0\n}",
        );
        proof {
            assert(out@ =~= colab_output(self.config, *schema));
        }
        Ok(out)
    }

    fn validate_output(&self, output: &str) -> (r: Result<(), KbError>) {
        if !crate::json::is_valid_json(output) {
            return Err(
                KbError::OutputValidationError {
                    generator: "colab".to_owned(),
                    message: "Invalid JSON".to_owned(),
                },
            );
        }
        if !str_contains(output, "\"nbformat\"") {
            return Err(
                KbError::OutputValidationError {
                    generator: "colab".to_owned(),
                    message: "Missing 'nbformat' field".to_owned(),
                },
            );
        }
        if !str_contains(output, "\"colab\"") {
            return Err(
                KbError::OutputValidationError {
                    generator: "colab".to_owned(),
                    message: "Missing 'metadata.colab' field".to_owned(),
                },
            );
        }
        if !str_contains(output, "\"cells\"") {
            return Err(
                KbError::OutputValidationError {
                    generator: "colab".to_owned(),
                    message: "Missing 'cells' array".to_owned(),
                },
            );
        }
        Ok(())
    }
}


/// A schema without an article still renders: the output is never empty.
pub proof fn lemma_colab_fallback_nonempty(g: ColabGenerator, s: Schema)
    requires
        s.article is None,
    ensures
        g.spec_generate(s).len() > 0,
{
    reveal_strlit("{\n  \"cells\": ");
}

/// The structural check rejects empty input.
pub proof fn lemma_colab_rejects_empty(g: ColabGenerator)
    ensures
        !g.spec_validates(Seq::empty()),
{
    reveal_strlit("\"nbformat\"");
}

} // verus!
