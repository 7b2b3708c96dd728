//! The notebook-tutorial renderer: an ordered list of narrative (markdown)
//! and executable (code) blocks, serialized as a notebook-format JSON
//! document. Every cell carries the required execution-state field, null
//! when never executed.

use vstd::prelude::*;
use crate::error::KbError;
use crate::generator::OutputGenerator;
use crate::json::{jstr, json_wf};
use crate::schema::{Example, Schema};
use crate::text::{append_bullets, bullet_lines, dec_str, spec_contains, spec_lines, str_contains};

verus! {

/// Cell type.
#[derive(Debug, Clone, Copy, PartialEq, Eq, Structural)]
pub enum CellType {
    Code,
    Markdown,
    Raw,
}

/// A notebook cell: its type, its source split into lines (each line
/// keeping its newline), and its outputs list, present only on code cells.
/// Cell metadata is always empty and the execution count always null.
#[derive(Debug, Clone, PartialEq)]
pub struct Cell {
    pub cell_type: CellType,
    pub source: Vec<String>,
    pub outputs: Option<Vec<String>>,
}

/// The abstract value of a cell: type, line views, output views.
pub struct CellSpec {
    pub cell_type: CellType,
    pub lines: Seq<Seq<char>>,
    pub outputs: Option<Seq<Seq<char>>>,
}

impl View for Cell {
    type V = CellSpec;

    open spec fn view(&self) -> CellSpec {
        CellSpec {
            cell_type: self.cell_type,
            lines: self.source@.map_values(|x: String| x@),
            outputs: match self.outputs {
                Some(v) => Some(v@.map_values(|x: String| x@)),
                None => None,
            },
        }
    }
}

/// Source lines of a cell built from `content`: the content's lines, each
/// with a newline appended.
pub open spec fn cell_lines(content: Seq<char>) -> Seq<Seq<char>> {
    spec_lines(content).map_values(|l: Seq<char>| l + "\n"@)
}

/// The abstract markdown cell holding `content`.
pub open spec fn md_cell(content: Seq<char>) -> CellSpec {
    CellSpec { cell_type: CellType::Markdown, lines: cell_lines(content), outputs: None }
}

/// The abstract code cell holding `code`.
pub open spec fn code_cell(code: Seq<char>) -> CellSpec {
    CellSpec {
        cell_type: CellType::Code,
        lines: cell_lines(code),
        outputs: Some(Seq::empty()),
    }
}

/// Splits `content` into newline-terminated source lines.
pub(crate) fn source_lines_pub(content: &str) -> (v: Vec<String>)
    ensures
        v@.map_values(|x: String| x@) == cell_lines(content@),
{
    let lines = crate::text::split_lines(content);
    let mut v: Vec<String> = Vec::new();
    let n = lines.len();
    let mut j: usize = 0;
    while j < n
        invariant
            n == lines@.len(),
            lines@.len() == spec_lines(content@).len(),
            forall|k: int| 0 <= k < n ==> (#[trigger] lines@[k])@ == spec_lines(content@)[k],
            j <= n,
            v@.len() == j,
            forall|k: int| 0 <= k < j ==> (#[trigger] v@[k])@ == cell_lines(content@)[k],
        decreases n - j,
    {
        let mut l = lines[j].clone();
        l.append("\n");
        v.push(l);
        j = j + 1;
    }
    proof {
        assert(v@.map_values(|x: String| x@) =~= cell_lines(content@));
    }
    v
}

impl Cell {
    /// Creates a markdown cell.
    pub fn markdown(content: String) -> (r: Self)
        ensures
            r@ == md_cell(content@),
    {
        let r = Cell {
            cell_type: CellType::Markdown,
            source: source_lines_pub(content.as_str()),
            outputs: None,
        };
        proof {
            assert(r@ == md_cell(content@)) by {
                assert(r@.lines == cell_lines(content@));
            };
        }
        r
    }

    /// Creates a code cell with an empty outputs list.
    pub fn code(code: String) -> (r: Self)
        ensures
            r@ == code_cell(code@),
    {
        let r = Cell {
            cell_type: CellType::Code,
            source: source_lines_pub(code.as_str()),
            outputs: Some(Vec::new()),
        };
        proof {
            assert(r@ == code_cell(code@)) by {
                assert(r@.lines == cell_lines(code@));
                assert(r@.outputs == Some(Seq::<Seq<char>>::empty())) by {
                    assert(Seq::<String>::empty().map_values(|x: String| x@)
                        =~= Seq::<Seq<char>>::empty());
                };
            };
        }
        r
    }

    /// Creates a raw cell.
    pub fn raw(content: String) -> (r: Self)
        ensures
            r@.cell_type == CellType::Raw,
            r@.lines == cell_lines(content@),
            r@.outputs is None,
    {
        Cell {
            cell_type: CellType::Raw,
            source: source_lines_pub(content.as_str()),
            outputs: None,
        }
    }
}

/// Kernel specification.
#[derive(Debug, Clone, PartialEq)]
pub struct KernelSpec {
    pub display_name: String,
    pub language: String,
    pub name: String,
}

impl Default for KernelSpec {
    /// The stock Python 3 kernel.
    fn default() -> (r: Self)
        ensures
            r.display_name@ == "Python 3"@,
            r.language@ == "python"@,
            r.name@ == "python3"@,
    {
        KernelSpec {
            display_name: "Python 3".to_owned(),
            language: "python".to_owned(),
            name: "python3".to_owned(),
        }
    }
}

/// Language information.
#[derive(Debug, Clone, PartialEq)]
pub struct LanguageInfo {
    pub name: String,
    pub version: String,
    pub mimetype: Option<String>,
    pub file_extension: Option<String>,
}

impl Default for LanguageInfo {
    /// The stock Python language block.
    fn default() -> (r: Self)
        ensures
            r.name@ == "python"@,
            r.version@ == "3.10.0"@,
            r.mimetype matches Some(m) && m@ == "text/x-python"@,
            r.file_extension matches Some(f) && f@ == ".py"@,
    {
        LanguageInfo {
            name: "python".to_owned(),
            version: "3.10.0".to_owned(),
            mimetype: Some("text/x-python".to_owned()),
            file_extension: Some(".py".to_owned()),
        }
    }
}

/// Notebook-level metadata; each part is optional and absent by default.
#[derive(Debug, Clone, PartialEq)]
pub struct NotebookMetadata {
    pub kernelspec: Option<KernelSpec>,
    pub language_info: Option<LanguageInfo>,
}

impl Default for NotebookMetadata {
    /// The empty metadata block.
    fn default() -> (r: Self)
        ensures
            r.kernelspec is None,
            r.language_info is None,
    {
        NotebookMetadata { kernelspec: None, language_info: None }
    }
}

/// A notebook document.
#[derive(Debug, Clone, PartialEq)]
pub struct Notebook {
    /// Notebook format version.
    pub nbformat: u8,
    pub nbformat_minor: u8,
    pub metadata: NotebookMetadata,
    pub cells: Vec<Cell>,
}

/// The abstract cell list of a notebook.
pub open spec fn cells_view(nb: Notebook) -> Seq<CellSpec> {
    nb.cells@.map_values(|c: Cell| c@)
}

impl Notebook {
    /// Creates an empty notebook with the stock format version and empty
    /// metadata.
    pub fn new() -> (r: Self)
        ensures
            r.nbformat == 4,
            r.nbformat_minor == 5,
            r.metadata.kernelspec is None,
            r.metadata.language_info is None,
            cells_view(r) == Seq::<CellSpec>::empty(),
    {
        let r = Notebook {
            nbformat: 4,
            nbformat_minor: 5,
            metadata: NotebookMetadata { kernelspec: None, language_info: None },
            cells: Vec::new(),
        };
        proof {
            assert(cells_view(r) =~= Seq::<CellSpec>::empty());
        }
        r
    }

    /// Appends a cell.
    pub fn add_cell(&mut self, cell: Cell)
        ensures
            final(self).nbformat == old(self).nbformat,
            final(self).nbformat_minor == old(self).nbformat_minor,
            final(self).metadata == old(self).metadata,
            cells_view(*final(self)) == cells_view(*old(self)).push(cell@),
    {
        self.cells.push(cell);
        proof {
            assert(cells_view(*self) =~= cells_view(*old(self)).push(
                old(self).cells@.push(cell).last()@,
            ));
        }
    }

    /// Appends a markdown cell with the given content.
    pub fn add_markdown(&mut self, content: String)
        ensures
            final(self).nbformat == old(self).nbformat,
            final(self).nbformat_minor == old(self).nbformat_minor,
            final(self).metadata == old(self).metadata,
            cells_view(*final(self)) == cells_view(*old(self)).push(md_cell(content@)),
    {
        let cell = Cell::markdown(content);
        self.add_cell(cell);
    }

    /// Appends a code cell with the given code.
    pub fn add_code(&mut self, code: String)
        ensures
            final(self).nbformat == old(self).nbformat,
            final(self).nbformat_minor == old(self).nbformat_minor,
            final(self).metadata == old(self).metadata,
            cells_view(*final(self)) == cells_view(*old(self)).push(code_cell(code@)),
    {
        let cell = Cell::code(code);
        self.add_cell(cell);
    }
}

impl Default for Notebook {
    /// The empty notebook.
    fn default() -> (r: Self)
        ensures
            r.nbformat == 4,
            r.nbformat_minor == 5,
            r.metadata.kernelspec is None,
            r.metadata.language_info is None,
            cells_view(r) == Seq::<CellSpec>::empty(),
    {
        Notebook::new()
    }
}

/// The items of a JSON string array, each on its own indented line.
pub open spec fn jarr_items(items: Seq<Seq<char>>, n: int, ind: Seq<char>) -> Seq<char>
    decreases n,
{
    if n <= 0 {
        Seq::empty()
    } else if n == 1 {
        ind + jstr(items[0])
    } else {
        jarr_items(items, n - 1, ind) + ",\n"@ + ind + jstr(items[n - 1])
    }
}

/// A JSON array of strings: `[]` when empty, else one item per line.
pub open spec fn jarr(items: Seq<Seq<char>>, ind: Seq<char>, close_ind: Seq<char>) -> Seq<char> {
    if items.len() == 0 {
        "[]"@
    } else {
        "[\n"@ + jarr_items(items, items.len() as int, ind) + "\n"@ + close_ind + "]"@
    }
}

/// Appends a JSON string array to `out`.
pub(crate) fn append_jarr(out: &mut String, items: &Vec<String>, ind: &str, close_ind: &str)
    ensures
        final(out)@ == old(out)@ + jarr(items@.map_values(|x: String| x@), ind@, close_ind@),
{
    let n = items.len();
    if n == 0 {
        out.append("[]");
        proof {
            assert(out@ =~= old(out)@ + jarr(
                items@.map_values(|x: String| x@),
                ind@,
                close_ind@,
            ));
        }
        return ;
    }
    out.append("[\n");
    let mut j: usize = 0;
    while j < n
        invariant
            n == items@.len(),
            n >= 1,
            j <= n,
            out@ == old(out)@ + "[\n"@ + jarr_items(
                items@.map_values(|x: String| x@),
                j as int,
                ind@,
            ),
        decreases n - j,
    {
        if j > 0 {
            out.append(",\n");
        }
        out.append(ind);
        crate::json::append_json_string(out, items[j].as_str());
        j = j + 1;
        proof {
            assert(out@ =~= old(out)@ + "[\n"@ + jarr_items(
                items@.map_values(|x: String| x@),
                j as int,
                ind@,
            ));
        }
    }
    out.append("\n");
    out.append(close_ind);
    out.append("]");
    proof {
        assert(out@ =~= old(out)@ + jarr(items@.map_values(|x: String| x@), ind@, close_ind@));
    }
}

/// The JSON name of a cell type.
pub open spec fn cell_type_json(t: CellType) -> Seq<char> {
    match t {
        CellType::Code => "\"code\""@,
        CellType::Markdown => "\"markdown\""@,
        CellType::Raw => "\"raw\""@,
    }
}

/// One cell as a pretty-printed JSON object, indented as an element of the
/// top-level cell array.
pub open spec fn cell_json(c: CellSpec) -> Seq<char> {
    cell_json_head(c) + cell_json_outputs(c) + "      \"execution_count\": null\n    }"@
}

/// The part of a cell's JSON before the optional outputs field.
pub open spec fn cell_json_head(c: CellSpec) -> Seq<char> {
    "    {\n      \"cell_type\": "@ + cell_type_json(c.cell_type) + ",\n      \"metadata\": {},\n      \"source\": "@
        + jarr(c.lines, "        "@, "      "@) + ",\n"@
}

/// The optional outputs field of a cell's JSON.
pub open spec fn cell_json_outputs(c: CellSpec) -> Seq<char> {
    match c.outputs {
        Some(os) => "      \"outputs\": "@ + jarr(os, "        "@, "      "@) + ",\n"@,
        None => Seq::empty(),
    }
}

fn append_cell_json_head(out: &mut String, c: &Cell)
    ensures
        final(out)@ == old(out)@ + cell_json_head(c@),
{
    out.append("    {\n      \"cell_type\": ");
    match c.cell_type {
        CellType::Code => out.append("\"code\""),
        CellType::Markdown => out.append("\"markdown\""),
        CellType::Raw => out.append("\"raw\""),
    }
    out.append(",\n      \"metadata\": {},\n      \"source\": ");
    append_jarr(out, &c.source, "        ", "      ");
    out.append(",\n");
    proof {
        assert(out@ =~= old(out)@ + cell_json_head(c@));
    }
}

fn append_cell_json_outputs(out: &mut String, c: &Cell)
    ensures
        final(out)@ == old(out)@ + cell_json_outputs(c@),
{
    match &c.outputs {
        Some(os) => {
            out.append("      \"outputs\": ");
            append_jarr(out, os, "        ", "      ");
            out.append(",\n");
            proof {
                assert(out@ =~= old(out)@ + cell_json_outputs(c@));
            }
        },
        None => {
            proof {
                assert(out@ =~= old(out)@ + cell_json_outputs(c@));
            }
        },
    }
}

/// Appends one cell's JSON to `out`.
fn append_cell_json(out: &mut String, c: &Cell)
    ensures
        final(out)@ == old(out)@ + cell_json(c@),
{
    append_cell_json_head(out, c);
    append_cell_json_outputs(out, c);
    out.append("      \"execution_count\": null\n    }");
    proof {
        assert(out@ =~= old(out)@ + cell_json(c@));
    }
}

/// The cell array elements, comma-separated.
pub open spec fn cells_json(cs: Seq<CellSpec>, n: int) -> Seq<char>
    decreases n,
{
    if n <= 0 {
        Seq::empty()
    } else if n == 1 {
        cell_json(cs[0])
    } else {
        cells_json(cs, n - 1) + ",\n"@ + cell_json(cs[n - 1])
    }
}

/// The whole cell array.
pub open spec fn cells_arr(cs: Seq<CellSpec>) -> Seq<char> {
    if cs.len() == 0 {
        "[]"@
    } else {
        "[\n"@ + cells_json(cs, cs.len() as int) + "\n  ]"@
    }
}

/// One metadata sub-object field, rendered as the given prefix and the
/// value, or absent when the option is absent.
pub open spec fn opt_meta_field(prefix: Seq<char>, v: Option<String>) -> Seq<char> {
    match v {
        Some(s) => prefix + jstr(s@),
        None => Seq::empty(),
    }
}

/// The notebook metadata as JSON: `{}` when empty.
pub open spec fn metadata_json(m: NotebookMetadata) -> Seq<char> {
    if m.kernelspec is None && m.language_info is None {
        "{}"@
    } else {
        "{\n"@ + (match m.kernelspec {
            Some(ks) => "    \"kernelspec\": {\n      \"display_name\": "@ + jstr(ks.display_name@)
                + ",\n      \"language\": "@ + jstr(ks.language@) + ",\n      \"name\": "@ + jstr(
                ks.name@,
            ) + "\n    }"@ + (if m.language_info is Some {
                ",\n"@
            } else {
                Seq::empty()
            }),
            None => Seq::empty(),
        }) + (match m.language_info {
            Some(li) => "    \"language_info\": {\n      \"name\": "@ + jstr(li.name@)
                + ",\n      \"version\": "@ + jstr(li.version@) + opt_meta_field(
                ",\n      \"mimetype\": "@,
                li.mimetype,
            ) + opt_meta_field(",\n      \"file_extension\": "@, li.file_extension) + "\n    }"@,
            None => Seq::empty(),
        }) + "\n  }"@
    }
}

#[verifier::rlimit(100)]
fn append_metadata_json(out: &mut String, m: &NotebookMetadata)
    ensures
        final(out)@ == old(out)@ + metadata_json(*m),
{
    if m.kernelspec.is_none() && m.language_info.is_none() {
        out.append("{}");
        proof {
            assert(out@ =~= old(out)@ + metadata_json(*m));
        }
        return ;
    }
    out.append("{\n");
    let ghost mid0 = out@;
    if let Some(ks) = &m.kernelspec {
        out.append("    \"kernelspec\": {\n      \"display_name\": ");
        crate::json::append_json_string(out, ks.display_name.as_str());
        out.append(",\n      \"language\": ");
        crate::json::append_json_string(out, ks.language.as_str());
        out.append(",\n      \"name\": ");
        crate::json::append_json_string(out, ks.name.as_str());
        out.append("\n    }");
        if m.language_info.is_some() {
            out.append(",\n");
        }
    }
    proof {
        assert(out@ =~= mid0 + (match m.kernelspec {
            Some(ks) => "    \"kernelspec\": {\n      \"display_name\": "@ + jstr(ks.display_name@)
                + ",\n      \"language\": "@ + jstr(ks.language@) + ",\n      \"name\": "@ + jstr(
                ks.name@,
            ) + "\n    }"@ + (if m.language_info is Some {
                ",\n"@
            } else {
                Seq::empty()
            }),
            None => Seq::empty(),
        }));
    }
    let ghost mid1 = out@;
    if let Some(li) = &m.language_info {
        out.append("    \"language_info\": {\n      \"name\": ");
        crate::json::append_json_string(out, li.name.as_str());
        out.append(",\n      \"version\": ");
        crate::json::append_json_string(out, li.version.as_str());
        let ghost m2 = out@;
        if let Some(mt) = &li.mimetype {
            out.append(",\n      \"mimetype\": ");
            crate::json::append_json_string(out, mt.as_str());
        }
        proof {
            assert(out@ =~= m2 + opt_meta_field(",\n      \"mimetype\": "@, li.mimetype));
        }
        let ghost m3 = out@;
        if let Some(fe) = &li.file_extension {
            out.append(",\n      \"file_extension\": ");
            crate::json::append_json_string(out, fe.as_str());
        }
        proof {
            assert(out@ =~= m3 + opt_meta_field(",\n      \"file_extension\": "@, li.file_extension));
        }
        out.append("\n    }");
    }
    proof {
        assert(out@ =~= mid1 + (match m.language_info {
            Some(li) => "    \"language_info\": {\n      \"name\": "@ + jstr(li.name@)
                + ",\n      \"version\": "@ + jstr(li.version@) + opt_meta_field(
                ",\n      \"mimetype\": "@,
                li.mimetype,
            ) + opt_meta_field(",\n      \"file_extension\": "@, li.file_extension) + "\n    }"@,
            None => Seq::empty(),
        }));
    }
    out.append("\n  }");
    proof {
        assert(out@ =~= old(out)@ + metadata_json(*m));
    }
}

/// The whole notebook document as pretty-printed JSON.
pub open spec fn notebook_json(
    nbformat: nat,
    nbformat_minor: nat,
    metadata: NotebookMetadata,
    cells: Seq<CellSpec>,
) -> Seq<char> {
    "{\n  \"nbformat\": "@ + dec_str(nbformat) + ",\n  \"nbformat_minor\": "@ + dec_str(
        nbformat_minor,
    ) + ",\n  \"metadata\": "@ + metadata_json(metadata) + ",\n  \"cells\": "@ + cells_arr(cells)
        + "\n}"@
}

impl Notebook {
    /// Serializes the notebook to its JSON document.
    pub fn to_json(&self) -> (r: Result<String, KbError>)
        ensures
            r matches Ok(out) && out@ == notebook_json(
                self.nbformat as nat,
                self.nbformat_minor as nat,
                self.metadata,
                cells_view(*self),
            ),
    {
        let mut out = String::new();
        out.append("{\n  \"nbformat\": ");
        crate::text::append_u64(&mut out, self.nbformat as u64);
        out.append(",\n  \"nbformat_minor\": ");
        crate::text::append_u64(&mut out, self.nbformat_minor as u64);
        out.append(",\n  \"metadata\": ");
        append_metadata_json(&mut out, &self.metadata);
        out.append(",\n  \"cells\": ");
        let ghost mid = out@;
        let n = self.cells.len();
        if n == 0 {
            out.append("[]");
        } else {
            out.append("[\n");
            let mut j: usize = 0;
            while j < n
                invariant
                    n == self.cells@.len(),
                    n >= 1,
                    j <= n,
                    out@ == mid + "[\n"@ + cells_json(cells_view(*self), j as int),
                decreases n - j,
            {
                if j > 0 {
                    out.append(",\n");
                }
                append_cell_json(&mut out, &self.cells[j]);
                j = j + 1;
                proof {
                    assert(out@ =~= mid + "[\n"@ + cells_json(cells_view(*self), j as int));
                }
            }
            out.append("\n  ]");
        }
        proof {
            assert(out@ =~= mid + cells_arr(cells_view(*self)));
        }
        out.append("\n}");
        proof {
            assert(out@ =~= notebook_json(
                self.nbformat as nat,
                self.nbformat_minor as nat,
                self.metadata,
                cells_view(*self),
            ));
        }
        Ok(out)
    }
}


/// The notebook header: title heading, description, rule.
pub open spec fn header_md(title: Seq<char>, description: Seq<char>) -> Seq<char> {
    "# "@ + title + "\n\n"@ + description + "\n\n---\n"@
}

/// The introduction block of a structured article: hook, learning
/// objectives, prerequisites, and the estimated time when given.
pub open spec fn intro_md(
    hook: Seq<char>,
    objectives: Seq<Seq<char>>,
    prerequisites: Seq<Seq<char>>,
    time: Option<Seq<char>>,
) -> Seq<char> {
    "## Introduction\n\n"@ + hook + "\n\n### \u{1F3AF} Learning Objectives\n\n"@ + bullet_lines(
        objectives,
        objectives.len() as int,
    ) + "\n\n### \u{1F4CB} Prerequisites\n\n"@ + bullet_lines(
        prerequisites,
        prerequisites.len() as int,
    ) + "\n\n"@ + (match time {
        Some(t) => "**\u{23F1}\u{FE0F} Estimated Time:** "@ + t + "\n"@,
        None => Seq::empty(),
    }) + "---\n"@
}

/// One subsection under a section heading.
pub open spec fn subsections_md(subs: Seq<crate::article::SubSection>, n: int) -> Seq<char>
    decreases n,
{
    if n <= 0 {
        Seq::empty()
    } else {
        subsections_md(subs, n - 1) + "### "@ + subs[n - 1].title@ + "\n\n"@ + subs[n - 1].content@
            + "\n\n"@
    }
}

/// A content section: heading, body, subsections.
pub open spec fn section_block_md(sec: crate::article::Section) -> Seq<char> {
    "## "@ + sec.title@ + "\n\n"@ + sec.content@ + "\n\n"@ + subsections_md(
        sec.subsections@,
        sec.subsections@.len() as int,
    )
}

/// A rendered code example: title, explanation, the Python snippet, and the
/// expected output when given.
pub open spec fn example_md(
    title: Seq<char>,
    explanation: Seq<char>,
    code: Seq<char>,
    output: Option<Seq<char>>,
) -> Seq<char> {
    "### Example: "@ + title + "\n\n"@ + explanation + "\n\n**Code:**\n```python\n"@ + code
        + "\n```\n\n"@ + (match output {
        Some(o) => "**Expected Output:**\n```\n"@ + o + "\n```\n"@,
        None => Seq::empty(),
    })
}

/// The rendering of one example value.
pub open spec fn example_md_of(e: Example) -> Seq<char> {
    example_md(
        e.title@,
        e.explanation@,
        e.code.python@,
        match e.expected_output {
            Some(o) => Some(o@),
            None => None,
        },
    )
}

/// The icon-and-label prefix of a sidebar, chosen by its type string.
pub open spec fn sidebar_prefix(sidebar_type: Seq<char>) -> Seq<char> {
    if sidebar_type == "tip"@ {
        "> \u{1F4A1} **Tip:** "@
    } else if sidebar_type == "warning"@ {
        "> \u{26A0}\u{FE0F} **Warning:** "@
    } else if sidebar_type == "performance"@ {
        "> \u{26A1} **Performance:** "@
    } else if sidebar_type == "best_practice"@ {
        "> \u{2705} **Best Practice:** "@
    } else {
        "> \u{1F4DD} **Note:** "@
    }
}

/// A rendered sidebar: blockquote with icon, title and content.
pub open spec fn sidebar_md(
    sidebar_type: Seq<char>,
    title: Seq<char>,
    content: Seq<char>,
) -> Seq<char> {
    sidebar_prefix(sidebar_type) + title + "\n>\n> "@ + content + "\n"@
}

/// The conclusion block: summary, next steps, further reading.
pub open spec fn conclusion_md(
    summary: Seq<char>,
    next_steps: Seq<Seq<char>>,
    further_reading: Seq<Seq<char>>,
) -> Seq<char> {
    "## \u{1F393} Conclusion\n\n"@ + summary + "\n\n### \u{1F680} Next Steps\n\n"@ + bullet_lines(
        next_steps,
        next_steps.len() as int,
    ) + "\n\n### \u{1F4DA} Further Reading\n\n"@ + bullet_lines(
        further_reading,
        further_reading.len() as int,
    ) + "\n"@
}

/// A rendered exercise: numbered heading, difficulty, problem, hints when
/// any, and an empty solution scaffold.
pub open spec fn exercise_md(
    number: nat,
    title: Seq<char>,
    difficulty: Seq<char>,
    problem: Seq<char>,
    hints: Seq<Seq<char>>,
) -> Seq<char> {
    "### Exercise "@ + dec_str(number) + ": "@ + title + "\n\n**Difficulty:** "@ + difficulty
        + "\n\n**Problem:**\n\n"@ + problem + "\n\n"@ + (if hints.len() > 0 {
        "**Hints:**\n"@ + bullet_lines(hints, hints.len() as int) + "\n"@
    } else {
        Seq::empty()
    }) + "**Your Solution:**\n```python\n# Write your solution here\n\n```\n"@
}

/// Template renderer for the notebook format. The templates are fixed; each
/// render method produces exactly the text its spec function describes.
#[derive(Debug, Clone, PartialEq)]
pub struct TemplateManager {}

impl TemplateManager {
    /// Creates a template manager; never fails.
    pub fn new() -> (r: Result<Self, KbError>)
        ensures
            r is Ok,
    {
        Ok(TemplateManager {  })
    }

    /// Renders the header block.
    pub fn render_header(&self, title: &str, description: &str) -> (r: Result<String, KbError>)
        ensures
            r matches Ok(out) && out@ == header_md(title@, description@),
    {
        let mut out = String::new();
        out.append("# ");
        out.append(title);
        out.append("\n\n");
        out.append(description);
        out.append("\n\n---\n");
        proof {
            assert(out@ =~= header_md(title@, description@));
        }
        Ok(out)
    }

    /// Renders the introduction block.
    pub fn render_introduction(
        &self,
        hook: &str,
        objectives: &Vec<String>,
        prerequisites: &Vec<String>,
        time: Option<&String>,
    ) -> (r: Result<String, KbError>)
        ensures
            r matches Ok(out) && out@ == intro_md(
                hook@,
                objectives@.map_values(|x: String| x@),
                prerequisites@.map_values(|x: String| x@),
                match time {
                    Some(t) => Some(t@),
                    None => None,
                },
            ),
    {
        let mut out = String::new();
        out.append("## Introduction\n\n");
        out.append(hook);
        out.append("\n\n### \u{1F3AF} Learning Objectives\n\n");
        append_bullets(&mut out, objectives);
        out.append("\n\n### \u{1F4CB} Prerequisites\n\n");
        append_bullets(&mut out, prerequisites);
        out.append("\n\n");
        if let Some(t) = time {
            out.append("**\u{23F1}\u{FE0F} Estimated Time:** ");
            out.append(t.as_str());
            out.append("\n");
        }
        out.append("---\n");
        proof {
            assert(out@ =~= intro_md(
                hook@,
                objectives@.map_values(|x: String| x@),
                prerequisites@.map_values(|x: String| x@),
                match time {
                    Some(t) => Some(t@),
                    None => None,
                },
            ));
        }
        Ok(out)
    }

    /// Renders a content section with its subsections.
    pub fn render_section(
        &self,
        title: &str,
        content: &str,
        subsections: &Vec<crate::article::SubSection>,
    ) -> (r: Result<String, KbError>)
        ensures
            r matches Ok(out) && out@ == "## "@ + title@ + "\n\n"@ + content@ + "\n\n"@
                + subsections_md(subsections@, subsections@.len() as int),
    {
        let mut out = String::new();
        out.append("## ");
        out.append(title);
        out.append("\n\n");
        out.append(content);
        out.append("\n\n");
        let n = subsections.len();
        let mut j: usize = 0;
        while j < n
            invariant
                n == subsections@.len(),
                j <= n,
                out@ == "## "@ + title@ + "\n\n"@ + content@ + "\n\n"@ + subsections_md(
                    subsections@,
                    j as int,
                ),
            decreases n - j,
        {
            out.append("### ");
            out.append(subsections[j].title.as_str());
            out.append("\n\n");
            out.append(subsections[j].content.as_str());
            out.append("\n\n");
            j = j + 1;
            proof {
                assert(out@ =~= "## "@ + title@ + "\n\n"@ + content@ + "\n\n"@ + subsections_md(
                    subsections@,
                    j as int,
                ));
            }
        }
        Ok(out)
    }

    /// Renders one code example.
    pub fn render_example(
        &self,
        title: &str,
        explanation: &str,
        code: &str,
        output: Option<&String>,
    ) -> (r: Result<String, KbError>)
        ensures
            r matches Ok(out) && out@ == example_md(
                title@,
                explanation@,
                code@,
                match output {
                    Some(o) => Some(o@),
                    None => None,
                },
            ),
    {
        let mut out = String::new();
        out.append("### Example: ");
        out.append(title);
        out.append("\n\n");
        out.append(explanation);
        out.append("\n\n**Code:**\n```python\n");
        out.append(code);
        out.append("\n```\n\n");
        if let Some(o) = output {
            out.append("**Expected Output:**\n```\n");
            out.append(o.as_str());
            out.append("\n```\n");
        }
        proof {
            assert(out@ =~= example_md(
                title@,
                explanation@,
                code@,
                match output {
                    Some(o) => Some(o@),
                    None => None,
                },
            ));
        }
        Ok(out)
    }

    /// Renders a sidebar blockquote, choosing the icon by the type string.
    pub fn render_sidebar(&self, sidebar_type: &str, title: &str, content: &str) -> (r: Result<
        String,
        KbError,
    >)
        ensures
            r matches Ok(out) && out@ == sidebar_md(sidebar_type@, title@, content@),
    {
        let mut out = String::new();
        if crate::text::str_eq(sidebar_type, "tip") {
            out.append("> \u{1F4A1} **Tip:** ");
        } else if crate::text::str_eq(sidebar_type, "warning") {
            out.append("> \u{26A0}\u{FE0F} **Warning:** ");
        } else if crate::text::str_eq(sidebar_type, "performance") {
            out.append("> \u{26A1} **Performance:** ");
        } else if crate::text::str_eq(sidebar_type, "best_practice") {
            out.append("> \u{2705} **Best Practice:** ");
        } else {
            out.append("> \u{1F4DD} **Note:** ");
        }
        out.append(title);
        out.append("\n>\n> ");
        out.append(content);
        out.append("\n");
        proof {
            assert(out@ =~= sidebar_md(sidebar_type@, title@, content@));
        }
        Ok(out)
    }

    /// Renders the conclusion block.
    pub fn render_conclusion(
        &self,
        summary: &str,
        next_steps: &Vec<String>,
        further_reading: &Vec<String>,
    ) -> (r: Result<String, KbError>)
        ensures
            r matches Ok(out) && out@ == conclusion_md(
                summary@,
                next_steps@.map_values(|x: String| x@),
                further_reading@.map_values(|x: String| x@),
            ),
    {
        let mut out = String::new();
        out.append("## \u{1F393} Conclusion\n\n");
        out.append(summary);
        out.append("\n\n### \u{1F680} Next Steps\n\n");
        append_bullets(&mut out, next_steps);
        out.append("\n\n### \u{1F4DA} Further Reading\n\n");
        append_bullets(&mut out, further_reading);
        out.append("\n");
        proof {
            assert(out@ =~= conclusion_md(
                summary@,
                next_steps@.map_values(|x: String| x@),
                further_reading@.map_values(|x: String| x@),
            ));
        }
        Ok(out)
    }

    /// Renders one exercise.
    pub fn render_exercise(
        &self,
        number: usize,
        title: &str,
        difficulty: &str,
        problem: &str,
        hints: &Vec<String>,
    ) -> (r: Result<String, KbError>)
        ensures
            r matches Ok(out) && out@ == exercise_md(
                number as nat,
                title@,
                difficulty@,
                problem@,
                hints@.map_values(|x: String| x@),
            ),
    {
        let mut out = String::new();
        out.append("### Exercise ");
        crate::text::append_u64(&mut out, number as u64);
        out.append(": ");
        out.append(title);
        out.append("\n\n**Difficulty:** ");
        out.append(difficulty);
        out.append("\n\n**Problem:**\n\n");
        out.append(problem);
        out.append("\n\n");
        if hints.len() > 0 {
            out.append("**Hints:**\n");
            append_bullets(&mut out, hints);
            out.append("\n");
        }
        out.append("**Your Solution:**\n```python\n# Write your solution here\n\n```\n");
        proof {
            assert(out@ =~= exercise_md(
                number as nat,
                title@,
                difficulty@,
                problem@,
                hints@.map_values(|x: String| x@),
            ));
        }
        Ok(out)
    }
}

impl Default for TemplateManager {
    /// The stock template set.
    fn default() -> (r: Self)
        ensures
            true,
    {
        TemplateManager {  }
    }
}


/// Index of the first example whose title equals `title`, if any.
pub open spec fn find_example_from(es: Seq<Example>, title: Seq<char>, i: int) -> Option<int>
    decreases es.len() - i,
{
    if i < 0 || i >= es.len() {
        None
    } else if es[i].title@ == title {
        Some(i)
    } else {
        find_example_from(es, title, i + 1)
    }
}

/// Looks an example up by title, returning the first match.
fn find_example<'a>(examples: &'a Vec<Example>, title: &str) -> (r: Option<&'a Example>)
    ensures
        match r {
            Some(e) => exists|k: int|
                find_example_from(examples@, title@, 0) == Some(k) && 0 <= k < examples@.len()
                    && *e == examples@[k],
            None => find_example_from(examples@, title@, 0) is None,
        },
{
    let n = examples.len();
    let mut i: usize = 0;
    while i < n
        invariant
            n == examples@.len(),
            i <= n,
            find_example_from(examples@, title@, 0) == find_example_from(
                examples@,
                title@,
                i as int,
            ),
        decreases n - i,
    {
        if crate::text::str_eq(examples[i].title.as_str(), title) {
            return Some(&examples[i]);
        }
        i = i + 1;
    }
    None
}

/// The string form of a sidebar type, as the sidebar template expects it.
pub open spec fn sidebar_type_str(t: crate::article::SidebarType) -> Seq<char> {
    match t {
        crate::article::SidebarType::Tip => "tip"@,
        crate::article::SidebarType::Warning => "warning"@,
        crate::article::SidebarType::Note => "note"@,
        crate::article::SidebarType::Info => "info"@,
        crate::article::SidebarType::Performance => "performance"@,
        crate::article::SidebarType::BestPractice => "best_practice"@,
    }
}

/// The markdown-plus-code cell pair for one example reference, or nothing
/// when the reference resolves to no example.
pub open spec fn example_ref_cells(s: Schema, name: Seq<char>) -> Seq<CellSpec> {
    match find_example_from(s.examples@, name, 0) {
        Some(k) => seq![
            md_cell(example_md_of(s.examples@[k])),
            code_cell(s.examples@[k].code.python@),
        ],
        None => Seq::empty(),
    }
}

/// The cells for the example references of one section, in order.
pub open spec fn section_example_cells(s: Schema, refs: Seq<String>, n: int) -> Seq<CellSpec>
    decreases n,
{
    if n <= 0 {
        Seq::empty()
    } else {
        section_example_cells(s, refs, n - 1) + example_ref_cells(s, refs[n - 1]@)
    }
}

/// The cells for the sections of a structured article, each a section cell
/// followed by its referenced examples.
pub open spec fn sections_cells(s: Schema, secs: Seq<crate::article::Section>, n: int) -> Seq<
    CellSpec,
>
    decreases n,
{
    if n <= 0 {
        Seq::empty()
    } else {
        sections_cells(s, secs, n - 1) + seq![md_cell(section_block_md(secs[n - 1]))]
            + section_example_cells(s, secs[n - 1].code_examples@, secs[n - 1].code_examples@.len() as int)
    }
}

/// The tutorial-intro cell contributed by the notebook-specific article
/// variation, when present.
pub open spec fn tutorial_intro_cells(b: crate::article::StructuredArticle) -> Seq<CellSpec> {
    match b.variations {
        Some(v) => match v.jupyter {
            Some(j) => match j.tutorial_intro {
                Some(t) => seq![md_cell(t@)],
                None => Seq::empty(),
            },
            None => Seq::empty(),
        },
        None => Seq::empty(),
    }
}

/// One interactive checkpoint: a numbered prompt cell and an empty answer
/// cell.
pub open spec fn prompt_cells(ps: Seq<String>, n: int) -> Seq<CellSpec>
    decreases n,
{
    if n <= 0 {
        Seq::empty()
    } else {
        prompt_cells(ps, n - 1) + seq![
            md_cell(
                "### \u{1F914} Interactive Checkpoint "@ + dec_str(n as nat) + "\n\n"@ + ps[n - 1]@,
            ),
            code_cell("# Your answer here\n"@),
        ]
    }
}

/// The interactive-checkpoint cells of the notebook-specific variation.
pub open spec fn prompts_cells(b: crate::article::StructuredArticle) -> Seq<CellSpec> {
    match b.variations {
        Some(v) => match v.jupyter {
            Some(j) => prompt_cells(j.interactive_prompts@, j.interactive_prompts@.len() as int),
            None => Seq::empty(),
        },
        None => Seq::empty(),
    }
}

/// The sidebar cells, one per sidebar, icon chosen by type.
pub open spec fn sidebars_cells(sbs: Seq<crate::article::Sidebar>, n: int) -> Seq<CellSpec>
    decreases n,
{
    if n <= 0 {
        Seq::empty()
    } else {
        sidebars_cells(sbs, n - 1) + seq![
            md_cell(
                sidebar_md(sidebar_type_str(sbs[n - 1].sidebar_type), sbs[n - 1].title@, sbs[n - 1].content@),
            ),
        ]
    }
}

/// A further-reading entry rendered as a markdown link when it has a URL,
/// else the bare title.
pub open spec fn reading_link(r: crate::article::Resource) -> Seq<char> {
    match r.url {
        Some(u) => "["@ + r.title@ + "]("@ + u@ + ")"@,
        None => r.title@,
    }
}

/// One numbered exercise cell per exercise; the prompt stands as both title
/// and problem.
pub open spec fn exercise_cells(es: Seq<crate::article::Exercise>, n: int) -> Seq<CellSpec>
    decreases n,
{
    if n <= 0 {
        Seq::empty()
    } else {
        exercise_cells(es, n - 1) + seq![
            md_cell(
                exercise_md(
                    n as nat,
                    es[n - 1].prompt@,
                    es[n - 1].difficulty.spec_label(),
                    es[n - 1].prompt@,
                    es[n - 1].hints@.map_values(|x: String| x@),
                ),
            ),
        ]
    }
}

/// The conclusion cells: the conclusion block, then the exercises.
pub open spec fn conclusion_cells(c: Option<crate::article::Conclusion>) -> Seq<CellSpec> {
    match c {
        Some(c) => seq![
            md_cell(
                conclusion_md(
                    c.summary@,
                    c.next_steps@.map_values(|x: String| x@),
                    c.further_reading@.map_values(|r: crate::article::Resource| reading_link(r)),
                ),
            ),
        ] + exercise_cells(c.exercises@, c.exercises@.len() as int),
        None => Seq::empty(),
    }
}

/// The cells for a structured article: introduction, optional tutorial
/// intro, sections with their examples, interactive prompts, sidebars, and
/// the conclusion with exercises.
pub open spec fn structured_cells(s: Schema, b: crate::article::StructuredArticle) -> Seq<
    CellSpec,
> {
    seq![
        md_cell(
            intro_md(
                b.introduction.hook@,
                b.introduction.learning_objectives@.map_values(|x: String| x@),
                b.introduction.prerequisites@.map_values(|x: String| x@),
                match b.introduction.estimated_time {
                    Some(t) => Some(t@),
                    None => None,
                },
            ),
        ),
    ] + tutorial_intro_cells(b) + sections_cells(s, b.sections@, b.sections@.len() as int)
        + prompts_cells(b) + sidebars_cells(b.sidebars@, b.sidebars@.len() as int)
        + conclusion_cells(b.conclusion)
}

/// The cells of one example in the no-article fallback: the rendered
/// example and an executable cell with its Python code.
pub open spec fn fallback_example_cells(es: Seq<Example>, n: int) -> Seq<CellSpec>
    decreases n,
{
    if n <= 0 {
        Seq::empty()
    } else {
        fallback_example_cells(es, n - 1) + seq![
            md_cell(example_md_of(es[n - 1])),
            code_cell(es[n - 1].code.python@),
        ]
    }
}

/// The no-article fallback: optional mathematical definition, the examples
/// with executable cells, then optional use-case and related-topic lists.
pub open spec fn fallback_cells(s: Schema) -> Seq<CellSpec> {
    (match s.mathematical_definition {
        Some(m) => seq![md_cell("## Mathematical Definition\n\n$"@ + m@ + "$\n\n---\n"@)],
        None => Seq::empty(),
    }) + seq![md_cell("## Examples\n"@)] + fallback_example_cells(
        s.examples@,
        s.examples@.len() as int,
    ) + (if s.use_cases@.len() > 0 {
        seq![
            md_cell(
                "## Use Cases\n\n"@ + bullet_lines(
                    s.use_cases@.map_values(|x: String| x@),
                    s.use_cases@.len() as int,
                ),
            ),
        ]
    } else {
        Seq::empty()
    }) + (if s.related_topics@.len() > 0 {
        seq![
            md_cell(
                "## Related Topics\n\n"@ + bullet_lines(
                    s.related_topics@.map_values(|x: String| x@),
                    s.related_topics@.len() as int,
                ),
            ),
        ]
    } else {
        Seq::empty()
    })
}

/// The whole cell sequence of the notebook for a schema: the header, then
/// the article cells for either variant, or the fallback cells when the
/// schema has no article.
pub open spec fn jupyter_cells(s: Schema) -> Seq<CellSpec> {
    seq![md_cell(header_md(s.title@, s.description@))] + match s.article {
        Some(a) => match a {
            crate::article::Article::Simple(sa) => seq![
                md_cell("## Overview\n\n"@ + sa.content@),
            ],
            crate::article::Article::Structured(b) => structured_cells(s, *b),
        },
        None => fallback_cells(s),
    }
}

/// The notebook-format output for a schema: the cell sequence serialized as
/// a notebook JSON document with the stock version and empty metadata.
pub open spec fn jupyter_output(s: Schema) -> Seq<char> {
    notebook_json(4, 5, NotebookMetadata { kernelspec: None, language_info: None }, jupyter_cells(s))
}

/// Notebook-tutorial generator.
#[derive(Debug, Clone, PartialEq)]
pub struct JupyterGenerator {
    templates: TemplateManager,
}

impl JupyterGenerator {
    /// Creates a new notebook generator.
    pub fn new() -> (r: Self)
        ensures
            true,
    {
        JupyterGenerator { templates: TemplateManager {  } }
    }

    /// Builds the notebook for a schema: exactly the cell sequence the spec
    /// describes, in a fresh notebook.
    #[verifier::rlimit(100)]
    fn generate_notebook(&self, schema: &Schema) -> (r: Notebook)
        ensures
            r.nbformat == 4,
            r.nbformat_minor == 5,
            r.metadata.kernelspec is None,
            r.metadata.language_info is None,
            cells_view(r) == jupyter_cells(*schema),
    {
        let mut notebook = Notebook::new();
        let header = match self.templates.render_header(
            schema.title.as_str(),
            schema.description.as_str(),
        ) {
            Ok(h) => h,
            Err(_) => String::new(),
        };
        notebook.add_markdown(header);
        let ghost base = cells_view(notebook);
        proof {
            assert(base =~= seq![md_cell(header_md(schema.title@, schema.description@))]);
        }
        match &schema.article {
            Some(article) => {
                match article {
                    crate::article::Article::Simple(simple) => {
                        let mut md = String::new();
                        md.append("## Overview\n\n");
                        md.append(simple.content.as_str());
                        proof {
                            assert(md@ =~= "## Overview\n\n"@ + simple.content@);
                        }
                        notebook.add_markdown(md);
                        proof {
                            assert(cells_view(notebook) =~= jupyter_cells(*schema));
                        }
                    },
                    crate::article::Article::Structured(structured) => {
                        self.add_structured_cells(&mut notebook, schema, structured);
                        proof {
                            assert(cells_view(notebook) =~= jupyter_cells(*schema));
                        }
                    },
                }
            },
            None => {
                self.add_fallback_cells(&mut notebook, schema);
                proof {
                    assert(cells_view(notebook) =~= jupyter_cells(*schema));
                }
            },
        }
        notebook
    }

    /// Adds the cells of a structured article.
    #[verifier::rlimit(100)]
    fn add_structured_cells(
        &self,
        notebook: &mut Notebook,
        schema: &Schema,
        structured: &crate::article::StructuredArticle,
    )
        ensures
            final(notebook).nbformat == old(notebook).nbformat,
            final(notebook).nbformat_minor == old(notebook).nbformat_minor,
            final(notebook).metadata == old(notebook).metadata,
            cells_view(*final(notebook)) == cells_view(*old(notebook)) + structured_cells(
                *schema,
                *structured,
            ),
    {
        let intro = match self.templates.render_introduction(
            structured.introduction.hook.as_str(),
            &structured.introduction.learning_objectives,
            &structured.introduction.prerequisites,
            structured.introduction.estimated_time.as_ref(),
        ) {
            Ok(i) => i,
            Err(_) => String::new(),
        };
        notebook.add_markdown(intro);
        proof {
            assert(cells_view(*notebook) =~= cells_view(*old(notebook)) + seq![
                md_cell(
                    intro_md(
                        structured.introduction.hook@,
                        structured.introduction.learning_objectives@.map_values(|x: String| x@),
                        structured.introduction.prerequisites@.map_values(|x: String| x@),
                        match structured.introduction.estimated_time {
                            Some(t) => Some(t@),
                            None => None,
                        },
                    ),
                ),
            ]);
        }
        let ghost c1 = cells_view(*notebook);
        if let Some(variations) = &structured.variations {
            if let Some(jupyter) = &variations.jupyter {
                if let Some(tutorial_intro) = &jupyter.tutorial_intro {
                    notebook.add_markdown(tutorial_intro.clone());
                }
            }
        }
        proof {
            assert(cells_view(*notebook) =~= c1 + tutorial_intro_cells(*structured));
        }
        let ghost c2 = cells_view(*notebook);
        let nsec = structured.sections.len();
        let mut i: usize = 0;
        while i < nsec
            invariant
                nsec == structured.sections@.len(),
                i <= nsec,
                cells_view(*notebook) == c2 + sections_cells(
                    *schema,
                    structured.sections@,
                    i as int,
                ),
                notebook.nbformat == old(notebook).nbformat,
                notebook.nbformat_minor == old(notebook).nbformat_minor,
                notebook.metadata == old(notebook).metadata,
            decreases nsec - i,
        {
            let section = &structured.sections[i];
            let section_md_text = match self.templates.render_section(
                section.title.as_str(),
                section.content.as_str(),
                &section.subsections,
            ) {
                Ok(t) => t,
                Err(_) => String::new(),
            };
            notebook.add_markdown(section_md_text);
            let ghost c3 = cells_view(*notebook);
            proof {
                assert(c3 =~= c2 + sections_cells(*schema, structured.sections@, i as int)
                    + seq![md_cell(section_block_md(structured.sections@[i as int]))]);
            }
            let nrefs = section.code_examples.len();
            let mut j: usize = 0;
            while j < nrefs
                invariant
                    nrefs == section.code_examples@.len(),
                    j <= nrefs,
                    cells_view(*notebook) == c3 + section_example_cells(
                        *schema,
                        section.code_examples@,
                        j as int,
                    ),
                    notebook.nbformat == old(notebook).nbformat,
                    notebook.nbformat_minor == old(notebook).nbformat_minor,
                    notebook.metadata == old(notebook).metadata,
                decreases nrefs - j,
            {
                let example_ref = &section.code_examples[j];
                match find_example(&schema.examples, example_ref.as_str()) {
                    Some(example) => {
                        let example_md_text = match self.templates.render_example(
                            example.title.as_str(),
                            example.explanation.as_str(),
                            example.code.python.as_str(),
                            example.expected_output.as_ref(),
                        ) {
                            Ok(t) => t,
                            Err(_) => String::new(),
                        };
                        notebook.add_markdown(example_md_text);
                        notebook.add_code(example.code.python.clone());
                    },
                    None => {},
                }
                j = j + 1;
                proof {
                    assert(cells_view(*notebook) =~= c3 + section_example_cells(
                        *schema,
                        section.code_examples@,
                        j as int,
                    ));
                }
            }
            i = i + 1;
            proof {
                assert(cells_view(*notebook) =~= c2 + sections_cells(
                    *schema,
                    structured.sections@,
                    i as int,
                ));
            }
        }
        let ghost c4 = cells_view(*notebook);
        if let Some(variations) = &structured.variations {
            if let Some(jupyter) = &variations.jupyter {
                let np = jupyter.interactive_prompts.len();
                let mut k: usize = 0;
                while k < np
                    invariant
                        np == jupyter.interactive_prompts@.len(),
                        k <= np,
                        cells_view(*notebook) == c4 + prompt_cells(
                            jupyter.interactive_prompts@,
                            k as int,
                        ),
                        notebook.nbformat == old(notebook).nbformat,
                        notebook.nbformat_minor == old(notebook).nbformat_minor,
                        notebook.metadata == old(notebook).metadata,
                    decreases np - k,
                {
                    let mut prompt_md = String::new();
                    prompt_md.append("### \u{1F914} Interactive Checkpoint ");
                    crate::text::append_u64(&mut prompt_md, (k as u64) + 1);
                    prompt_md.append("\n\n");
                    prompt_md.append(jupyter.interactive_prompts[k].as_str());
                    proof {
                        assert(prompt_md@ =~= "### \u{1F914} Interactive Checkpoint "@ + dec_str(
                            (k + 1) as nat,
                        ) + "\n\n"@ + jupyter.interactive_prompts@[k as int]@);
                    }
                    notebook.add_markdown(prompt_md);
                    notebook.add_code("# Your answer here\n".to_owned());
                    k = k + 1;
                    proof {
                        assert(cells_view(*notebook) =~= c4 + prompt_cells(
                            jupyter.interactive_prompts@,
                            k as int,
                        ));
                    }
                }
            }
        }
        proof {
            assert(cells_view(*notebook) =~= c4 + prompts_cells(*structured));
        }
        let ghost c5 = cells_view(*notebook);
        let nsb = structured.sidebars.len();
        let mut k: usize = 0;
        while k < nsb
            invariant
                nsb == structured.sidebars@.len(),
                k <= nsb,
                cells_view(*notebook) == c5 + sidebars_cells(structured.sidebars@, k as int),
                notebook.nbformat == old(notebook).nbformat,
                notebook.nbformat_minor == old(notebook).nbformat_minor,
                notebook.metadata == old(notebook).metadata,
            decreases nsb - k,
        {
            let sidebar = &structured.sidebars[k];
            let type_str = match sidebar.sidebar_type {
                crate::article::SidebarType::Tip => "tip",
                crate::article::SidebarType::Warning => "warning",
                crate::article::SidebarType::Note => "note",
                crate::article::SidebarType::Info => "info",
                crate::article::SidebarType::Performance => "performance",
                crate::article::SidebarType::BestPractice => "best_practice",
            };
            let sidebar_md_text = match self.templates.render_sidebar(
                type_str,
                sidebar.title.as_str(),
                sidebar.content.as_str(),
            ) {
                Ok(t) => t,
                Err(_) => String::new(),
            };
            notebook.add_markdown(sidebar_md_text);
            k = k + 1;
            proof {
                assert(cells_view(*notebook) =~= c5 + sidebars_cells(
                    structured.sidebars@,
                    k as int,
                ));
            }
        }
        let ghost c6 = cells_view(*notebook);
        if let Some(conclusion) = &structured.conclusion {
            let mut further_reading: Vec<String> = Vec::new();
            let nr = conclusion.further_reading.len();
            let mut k: usize = 0;
            while k < nr
                invariant
                    nr == conclusion.further_reading@.len(),
                    k <= nr,
                    further_reading@.len() == k,
                    forall|q: int|
                        0 <= q < k ==> (#[trigger] further_reading@[q])@ == reading_link(
                            conclusion.further_reading@[q],
                        ),
                decreases nr - k,
            {
                let resource = &conclusion.further_reading[k];
                match &resource.url {
                    Some(url) => {
                        let mut link = String::new();
                        link.append("[");
                        link.append(resource.title.as_str());
                        link.append("](");
                        link.append(url.as_str());
                        link.append(")");
                        proof {
                            assert(link@ =~= reading_link(conclusion.further_reading@[k as int]));
                        }
                        further_reading.push(link);
                    },
                    None => {
                        further_reading.push(resource.title.clone());
                    },
                }
                k = k + 1;
            }
            proof {
                assert(further_reading@.map_values(|x: String| x@)
                    =~= conclusion.further_reading@.map_values(
                    |r: crate::article::Resource| reading_link(r),
                ));
            }
            let conclusion_md_text = match self.templates.render_conclusion(
                conclusion.summary.as_str(),
                &conclusion.next_steps,
                &further_reading,
            ) {
                Ok(t) => t,
                Err(_) => String::new(),
            };
            notebook.add_markdown(conclusion_md_text);
            let ghost c7 = cells_view(*notebook);
            let ne = conclusion.exercises.len();
            let mut k: usize = 0;
            while k < ne
                invariant
                    ne == conclusion.exercises@.len(),
                    k <= ne,
                    cells_view(*notebook) == c7 + exercise_cells(conclusion.exercises@, k as int),
                    notebook.nbformat == old(notebook).nbformat,
                    notebook.nbformat_minor == old(notebook).nbformat_minor,
                    notebook.metadata == old(notebook).metadata,
                decreases ne - k,
            {
                let exercise = &conclusion.exercises[k];
                let exercise_md_text = match self.templates.render_exercise(
                    k + 1,
                    exercise.prompt.as_str(),
                    exercise.difficulty.label(),
                    exercise.prompt.as_str(),
                    &exercise.hints,
                ) {
                    Ok(t) => t,
                    Err(_) => String::new(),
                };
                notebook.add_markdown(exercise_md_text);
                k = k + 1;
                proof {
                    assert(cells_view(*notebook) =~= c7 + exercise_cells(
                        conclusion.exercises@,
                        k as int,
                    ));
                }
            }
        }
        proof {
            assert(cells_view(*notebook) =~= c6 + conclusion_cells(structured.conclusion));
            assert(cells_view(*notebook) =~= cells_view(*old(notebook)) + structured_cells(
                *schema,
                *structured,
            ));
        }
    }

    /// Adds the fallback cells for a schema without an article.
    #[verifier::rlimit(100)]
    fn add_fallback_cells(&self, notebook: &mut Notebook, schema: &Schema)
        ensures
            final(notebook).nbformat == old(notebook).nbformat,
            final(notebook).nbformat_minor == old(notebook).nbformat_minor,
            final(notebook).metadata == old(notebook).metadata,
            cells_view(*final(notebook)) == cells_view(*old(notebook)) + fallback_cells(*schema),
    {
        if let Some(math_def) = &schema.mathematical_definition {
            let mut md = String::new();
            md.append("## Mathematical Definition\n\n$");
            md.append(math_def.as_str());
            md.append("$\n\n---\n");
            proof {
                assert(md@ =~= "## Mathematical Definition\n\n$"@ + math_def@ + "$\n\n---\n"@);
            }
            notebook.add_markdown(md);
        }
        notebook.add_markdown("## Examples\n".to_owned());
        let ghost c1 = cells_view(*notebook);
        let n = schema.examples.len();
        let mut i: usize = 0;
        while i < n
            invariant
                n == schema.examples@.len(),
                i <= n,
                cells_view(*notebook) == c1 + fallback_example_cells(schema.examples@, i as int),
                notebook.nbformat == old(notebook).nbformat,
                notebook.nbformat_minor == old(notebook).nbformat_minor,
                notebook.metadata == old(notebook).metadata,
            decreases n - i,
        {
            let example = &schema.examples[i];
            let example_md_text = match self.templates.render_example(
                example.title.as_str(),
                example.explanation.as_str(),
                example.code.python.as_str(),
                example.expected_output.as_ref(),
            ) {
                Ok(t) => t,
                Err(_) => String::new(),
            };
            notebook.add_markdown(example_md_text);
            notebook.add_code(example.code.python.clone());
            i = i + 1;
            proof {
                assert(cells_view(*notebook) =~= c1 + fallback_example_cells(
                    schema.examples@,
                    i as int,
                ));
            }
        }
        let ghost c2 = cells_view(*notebook);
        if schema.use_cases.len() > 0 {
            let mut md = String::new();
            md.append("## Use Cases\n\n");
            append_bullets(&mut md, &schema.use_cases);
            notebook.add_markdown(md);
        }
        proof {
            assert(cells_view(*notebook) =~= c2 + (if schema.use_cases@.len() > 0 {
                seq![
                    md_cell(
                        "## Use Cases\n\n"@ + bullet_lines(
                            schema.use_cases@.map_values(|x: String| x@),
                            schema.use_cases@.len() as int,
                        ),
                    ),
                ]
            } else {
                Seq::empty()
            }));
        }
        let ghost c3 = cells_view(*notebook);
        if schema.related_topics.len() > 0 {
            let mut md = String::new();
            md.append("## Related Topics\n\n");
            append_bullets(&mut md, &schema.related_topics);
            notebook.add_markdown(md);
        }
        proof {
            assert(cells_view(*notebook) =~= c3 + (if schema.related_topics@.len() > 0 {
                seq![
                    md_cell(
                        "## Related Topics\n\n"@ + bullet_lines(
                            schema.related_topics@.map_values(|x: String| x@),
                            schema.related_topics@.len() as int,
                        ),
                    ),
                ]
            } else {
                Seq::empty()
            }));
            assert(cells_view(*notebook) =~= cells_view(*old(notebook)) + fallback_cells(
                *schema,
            ));
        }
    }
}

impl Default for JupyterGenerator {
    /// The stock notebook generator.
    fn default() -> (r: Self)
        ensures
            true,
    {
        JupyterGenerator::new()
    }
}

impl OutputGenerator for JupyterGenerator {
    open spec fn spec_name(&self) -> Seq<char> {
        "jupyter"@
    }

    open spec fn spec_extension(&self) -> Seq<char> {
        "ipynb"@
    }

    open spec fn spec_generate(&self, schema: Schema) -> Seq<char> {
        jupyter_output(schema)
    }

    /// Valid output must parse as JSON and carry the format-version and
    /// cell-list fields.
    open spec fn spec_validates(&self, output: Seq<char>) -> bool {
        json_wf(output) && spec_contains(output, "\"nbformat\""@) && spec_contains(
            output,
            "\"cells\""@,
        )
    }

    fn name(&self) -> (r: &str) {
        "jupyter"
    }

    fn file_extension(&self) -> (r: &str) {
        "ipynb"
    }

    fn generate(&self, schema: &Schema) -> (r: Result<String, KbError>) {
        let notebook = self.generate_notebook(schema);
        let json = notebook.to_json();
        proof {
            assert(notebook_json(
                notebook.nbformat as nat,
                notebook.nbformat_minor as nat,
                notebook.metadata,
                cells_view(notebook),
            ) == jupyter_output(*schema)) by {
                assert(notebook.metadata == NotebookMetadata {
                    kernelspec: None,
                    language_info: None,
                });
            };
        }
        json
    }

    fn validate_output(&self, output: &str) -> (r: Result<(), KbError>) {
        if !crate::json::is_valid_json(output) {
            return Err(
                KbError::OutputValidationError {
                    generator: "jupyter".to_owned(),
                    message: "Output is not valid JSON".to_owned(),
                },
            );
        }
        if !str_contains(output, "\"nbformat\"") {
            return Err(
                KbError::OutputValidationError {
                    generator: "jupyter".to_owned(),
                    message: "Missing 'nbformat' field".to_owned(),
                },
            );
        }
        if !str_contains(output, "\"cells\"") {
            return Err(
                KbError::OutputValidationError {
                    generator: "jupyter".to_owned(),
                    message: "Missing 'cells' field".to_owned(),
                },
            );
        }
        Ok(())
    }
}


/// A schema without an article still renders, through the examples-only
/// fallback: the output is never empty.
pub proof fn lemma_jupyter_fallback_nonempty(g: JupyterGenerator, s: Schema)
    requires
        s.article is None,
    ensures
        g.spec_generate(s).len() > 0,
{
    reveal_strlit("{\n  \"nbformat\": ");
}

/// The structural check rejects empty input.
pub proof fn lemma_jupyter_rejects_empty(g: JupyterGenerator)
    ensures
        !g.spec_validates(Seq::empty()),
{
    reveal_strlit("\"nbformat\"");
}

} // verus!
