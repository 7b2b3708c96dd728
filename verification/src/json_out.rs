//! The schema-dump generator: serializes one schema as a JSON document for
//! site frontends to consume, field for field, leaving out absent and
//! empty optional fields. The top level is one field per line; nested
//! values are compact.

use vstd::prelude::*;
use crate::error::KbError;
use crate::generator::OutputGenerator;
use crate::json::{json_wf, jstr};
use crate::schema::{
    CodeSnippets, Example, OutputHints, Performance, PlaygroundConfig, Schema, SeoMetadata,
};
use crate::text::{dec_str, spec_contains, str_contains};

verus! {

/// Rendered fields joined with commas.
pub open spec fn join_commas(fs: Seq<Seq<char>>, n: int) -> Seq<char>
    decreases n,
{
    if n <= 0 {
        Seq::empty()
    } else if n == 1 {
        fs[0]
    } else {
        join_commas(fs, n - 1) + ","@ + fs[n - 1]
    }
}

/// A compact JSON object over rendered fields.
pub open spec fn obj_of(fs: Seq<Seq<char>>) -> Seq<char> {
    "{"@ + join_commas(fs, fs.len() as int) + "}"@
}

/// A compact JSON array over rendered elements.
pub open spec fn arr_of(fs: Seq<Seq<char>>) -> Seq<char> {
    "["@ + join_commas(fs, fs.len() as int) + "]"@
}

/// A JSON boolean.
pub open spec fn jbool(b: bool) -> Seq<char> {
    if b {
        "true"@
    } else {
        "false"@
    }
}

/// Appends rendered pieces joined with commas.
fn append_joined(out: &mut String, fields: &Vec<String>)
    ensures
        final(out)@ == old(out)@ + join_commas(
            fields@.map_values(|x: String| x@),
            fields@.len() as int,
        ),
{
    let n = fields.len();
    let mut j: usize = 0;
    while j < n
        invariant
            n == fields@.len(),
            j <= n,
            out@ == old(out)@ + join_commas(fields@.map_values(|x: String| x@), j as int),
        decreases n - j,
    {
        if j > 0 {
            out.append(",");
        }
        out.append(fields[j].as_str());
        j = j + 1;
        proof {
            assert(out@ =~= old(out)@ + join_commas(
                fields@.map_values(|x: String| x@),
                j as int,
            ));
        }
    }
}

/// Appends a compact object over the rendered fields.
fn append_obj(out: &mut String, fields: &Vec<String>)
    ensures
        final(out)@ == old(out)@ + obj_of(fields@.map_values(|x: String| x@)),
{
    out.append("{");
    append_joined(out, fields);
    out.append("}");
    proof {
        assert(out@ =~= old(out)@ + obj_of(fields@.map_values(|x: String| x@)));
    }
}

/// Appends a compact array over the rendered elements.
fn append_arr(out: &mut String, fields: &Vec<String>)
    ensures
        final(out)@ == old(out)@ + arr_of(fields@.map_values(|x: String| x@)),
{
    out.append("[");
    append_joined(out, fields);
    out.append("]");
    proof {
        assert(out@ =~= old(out)@ + arr_of(fields@.map_values(|x: String| x@)));
    }
}

/// Pushes one rendered piece, tracking the abstract list.
fn push_field(fields: &mut Vec<String>, piece: String)
    ensures
        final(fields)@.map_values(|x: String| x@) == old(fields)@.map_values(
            |x: String| x@,
        ).push(piece@),
{
    let ghost before = fields@.map_values(|x: String| x@);
    let ghost pv = piece@;
    fields.push(piece);
    proof {
        assert(fields@.map_values(|x: String| x@) =~= before.push(pv));
    }
}

/// One singleton field, or nothing.
pub open spec fn opt_piece(present: bool, piece: Seq<char>) -> Seq<Seq<char>> {
    if present {
        seq![piece]
    } else {
        Seq::empty()
    }
}

/// A string field with a literal name.
pub open spec fn sfield(name: Seq<char>, v: Seq<char>) -> Seq<char> {
    "\""@ + name + "\":"@ + jstr(v)
}

/// A string field whose key is data and is escaped.
pub open spec fn kv_field(k: Seq<char>, v: Seq<char>) -> Seq<char> {
    jstr(k) + ":"@ + jstr(v)
}

/// Builds a `"name":"value"` field.
fn make_sfield(name: &str, v: &str) -> (r: String)
    ensures
        r@ == sfield(name@, v@),
{
    let mut f = String::new();
    f.append("\"");
    f.append(name);
    f.append("\":");
    crate::json::append_json_string(&mut f, v);
    proof {
        assert(f@ =~= sfield(name@, v@));
    }
    f
}

/// A raw-valued field (boolean, number, or nested JSON).
pub open spec fn rfield(name: Seq<char>, v: Seq<char>) -> Seq<char> {
    "\""@ + name + "\":"@ + v
}

/// Builds a field with a raw rendered value.
fn make_rfield(name: &str, v: String) -> (r: String)
    ensures
        r@ == rfield(name@, v@),
{
    let mut f = String::new();
    f.append("\"");
    f.append(name);
    f.append("\":");
    f.append(v.as_str());
    proof {
        assert(f@ =~= rfield(name@, v@));
    }
    f
}

/// The rendered string-array value.
pub open spec fn sarr(vs: Seq<Seq<char>>) -> Seq<char> {
    arr_of(vs.map_values(|v: Seq<char>| jstr(v)))
}

/// Renders a string array compactly.
fn make_sarr(vs: &Vec<String>) -> (r: String)
    ensures
        r@ == sarr(vs@.map_values(|x: String| x@)),
{
    let mut elems: Vec<String> = Vec::new();
    let n = vs.len();
    let mut j: usize = 0;
    while j < n
        invariant
            n == vs@.len(),
            j <= n,
            elems@.map_values(|x: String| x@) == vs@.map_values(|x: String| x@).map_values(
                |v: Seq<char>| jstr(v),
            ).take(j as int),
        decreases n - j,
    {
        let mut e = String::new();
        crate::json::append_json_string(&mut e, vs[j].as_str());
        push_field(&mut elems, e);
        j = j + 1;
        proof {
            assert(elems@.map_values(|x: String| x@) =~= vs@.map_values(
                |x: String| x@,
            ).map_values(|v: Seq<char>| jstr(v)).take(j as int));
        }
    }
    let mut out = String::new();
    append_arr(&mut out, &elems);
    proof {
        assert(vs@.map_values(|x: String| x@).map_values(|v: Seq<char>| jstr(v)).take(n as int)
            =~= vs@.map_values(|x: String| x@).map_values(|v: Seq<char>| jstr(v)));
        assert(out@ =~= sarr(vs@.map_values(|x: String| x@)));
    }
    out
}

/// The code-snippets object, with empty languages left out.
pub open spec fn snippets_fields(c: CodeSnippets) -> Seq<Seq<char>> {
    opt_piece(c.rust@.len() > 0, sfield("rust"@, c.rust@)) + opt_piece(
        c.python@.len() > 0,
        sfield("python"@, c.python@),
    ) + opt_piece(c.nodejs@.len() > 0, sfield("nodejs"@, c.nodejs@))
}

fn make_snippets(c: &CodeSnippets) -> (r: String)
    ensures
        r@ == obj_of(snippets_fields(*c)),
{
    let mut fields: Vec<String> = Vec::new();
    if c.rust.as_str().unicode_len() > 0 {
        push_field(&mut fields, make_sfield("rust", c.rust.as_str()));
    }
    if c.python.as_str().unicode_len() > 0 {
        push_field(&mut fields, make_sfield("python", c.python.as_str()));
    }
    if c.nodejs.as_str().unicode_len() > 0 {
        push_field(&mut fields, make_sfield("nodejs", c.nodejs.as_str()));
    }
    proof {
        assert(fields@.map_values(|x: String| x@) =~= snippets_fields(*c));
    }
    let mut out = String::new();
    append_obj(&mut out, &fields);
    out
}

/// One example object.
pub open spec fn example_fields(e: Example) -> Seq<Seq<char>> {
    seq![sfield("title"@, e.title@)] + opt_piece(
        e.explanation@.len() > 0,
        sfield("explanation"@, e.explanation@),
    ) + seq![rfield("code"@, obj_of(snippets_fields(e.code)))] + (match e.expected_output {
        Some(o) => seq![sfield("expected_output"@, o@)],
        None => Seq::empty(),
    })
}

fn make_example(e: &Example) -> (r: String)
    ensures
        r@ == obj_of(example_fields(*e)),
{
    let mut fields: Vec<String> = Vec::new();
    push_field(&mut fields, make_sfield("title", e.title.as_str()));
    if e.explanation.as_str().unicode_len() > 0 {
        push_field(&mut fields, make_sfield("explanation", e.explanation.as_str()));
    }
    push_field(&mut fields, make_rfield("code", make_snippets(&e.code)));
    if let Some(o) = &e.expected_output {
        push_field(&mut fields, make_sfield("expected_output", o.as_str()));
    }
    proof {
        assert(fields@.map_values(|x: String| x@) =~= example_fields(*e));
    }
    let mut out = String::new();
    append_obj(&mut out, &fields);
    out
}

/// The examples array.
pub open spec fn examples_arr(es: Seq<Example>) -> Seq<char> {
    arr_of(es.map_values(|e: Example| obj_of(example_fields(e))))
}

fn make_examples(es: &Vec<Example>) -> (r: String)
    ensures
        r@ == examples_arr(es@),
{
    let mut elems: Vec<String> = Vec::new();
    let n = es.len();
    let mut j: usize = 0;
    while j < n
        invariant
            n == es@.len(),
            j <= n,
            elems@.map_values(|x: String| x@) == es@.map_values(
                |e: Example| obj_of(example_fields(e)),
            ).take(j as int),
        decreases n - j,
    {
        push_field(&mut elems, make_example(&es[j]));
        j = j + 1;
        proof {
            assert(elems@.map_values(|x: String| x@) =~= es@.map_values(
                |e: Example| obj_of(example_fields(e)),
            ).take(j as int));
        }
    }
    let mut out = String::new();
    append_arr(&mut out, &elems);
    proof {
        assert(es@.map_values(|e: Example| obj_of(example_fields(e))).take(n as int) =~= es@.map_values(
            |e: Example| obj_of(example_fields(e)),
        ));
        assert(out@ =~= examples_arr(es@));
    }
    out
}

/// The performance object, with empty parts left out.
pub open spec fn performance_fields(p: Performance) -> Seq<Seq<char>> {
    opt_piece(p.complexity@.len() > 0, sfield("complexity"@, p.complexity@)) + (match p
        .typical_time {
        Some(t) => seq![sfield("typical_time"@, t@)],
        None => Seq::empty(),
    }) + opt_piece(
        p.benchmarks@.len() > 0,
        rfield(
            "benchmarks"@,
            obj_of(p.benchmarks@.map_values(|kv: (String, String)| kv_field(kv.0@, kv.1@))),
        ),
    )
}

fn make_pairs_obj(pairs: &Vec<(String, String)>) -> (r: String)
    ensures
        r@ == obj_of(pairs@.map_values(|kv: (String, String)| kv_field(kv.0@, kv.1@))),
{
    let mut fields: Vec<String> = Vec::new();
    let n = pairs.len();
    let mut j: usize = 0;
    while j < n
        invariant
            n == pairs@.len(),
            j <= n,
            fields@.map_values(|x: String| x@) == pairs@.map_values(
                |kv: (String, String)| kv_field(kv.0@, kv.1@),
            ).take(j as int),
        decreases n - j,
    {
        let mut f = String::new();
        crate::json::append_json_string(&mut f, pairs[j].0.as_str());
        f.append(":");
        crate::json::append_json_string(&mut f, pairs[j].1.as_str());
        proof {
            assert(f@ =~= kv_field(pairs@[j as int].0@, pairs@[j as int].1@));
        }
        push_field(&mut fields, f);
        j = j + 1;
        proof {
            assert(fields@.map_values(|x: String| x@) =~= pairs@.map_values(
                |kv: (String, String)| kv_field(kv.0@, kv.1@),
            ).take(j as int));
        }
    }
    proof {
        assert(pairs@.map_values(|kv: (String, String)| kv_field(kv.0@, kv.1@)).take(n as int)
            =~= pairs@.map_values(|kv: (String, String)| kv_field(kv.0@, kv.1@)));
    }
    let mut out = String::new();
    append_obj(&mut out, &fields);
    out
}

fn make_performance(p: &Performance) -> (r: String)
    ensures
        r@ == obj_of(performance_fields(*p)),
{
    let mut fields: Vec<String> = Vec::new();
    if p.complexity.as_str().unicode_len() > 0 {
        push_field(&mut fields, make_sfield("complexity", p.complexity.as_str()));
    }
    if let Some(t) = &p.typical_time {
        push_field(&mut fields, make_sfield("typical_time", t.as_str()));
    }
    if p.benchmarks.len() > 0 {
        push_field(&mut fields, make_rfield("benchmarks", make_pairs_obj(&p.benchmarks)));
    }
    proof {
        assert(fields@.map_values(|x: String| x@) =~= performance_fields(*p));
    }
    let mut out = String::new();
    append_obj(&mut out, &fields);
    out
}

/// The playground object; all of its fields are always present.
pub open spec fn playground_fields(p: PlaygroundConfig) -> Seq<Seq<char>> {
    seq![
        rfield("enabled"@, jbool(p.enabled)),
        sfield("default_expression"@, p.default_expression@),
        sfield("default_variable"@, p.default_variable@),
    ]
}

fn make_playground(p: &PlaygroundConfig) -> (r: String)
    ensures
        r@ == obj_of(playground_fields(*p)),
{
    let mut fields: Vec<String> = Vec::new();
    let mut b = String::new();
    if p.enabled {
        b.append("true");
    } else {
        b.append("false");
    }
    proof {
        assert(b@ =~= jbool(p.enabled));
    }
    push_field(&mut fields, make_rfield("enabled", b));
    push_field(
        &mut fields,
        make_sfield("default_expression", p.default_expression.as_str()),
    );
    push_field(&mut fields, make_sfield("default_variable", p.default_variable.as_str()));
    proof {
        assert(fields@.map_values(|x: String| x@) =~= playground_fields(*p));
    }
    let mut out = String::new();
    append_obj(&mut out, &fields);
    out
}

fn make_bool(b: bool) -> (r: String)
    ensures
        r@ == jbool(b),
{
    let mut s = String::new();
    if b {
        s.append("true");
    } else {
        s.append("false");
    }
    proof {
        assert(s@ =~= jbool(b));
    }
    s
}

fn make_usize(n: usize) -> (r: String)
    ensures
        r@ == dec_str(n as nat),
{
    let mut s = String::new();
    crate::text::append_u64(&mut s, n as u64);
    s
}

/// The hint blocks present in the outputs object, in declaration order.
pub open spec fn hints_fields(h: OutputHints) -> Seq<Seq<char>> {
    (match h.jupyter {
        Some(j) => seq![
            rfield(
                "jupyter"@,
                obj_of(
                    seq![
                        rfield("include_interactive_plots"@, jbool(j.include_interactive_plots)),
                        rfield(
                            "include_performance_section"@,
                            jbool(j.include_performance_section),
                        ),
                    ] + (match j.custom_intro {
                        Some(ci) => seq![sfield("custom_intro"@, ci@)],
                        None => Seq::empty(),
                    }),
                ),
            ),
        ],
        None => Seq::empty(),
    }) + (match h.mdbook {
        Some(m) => seq![
            rfield(
                "mdbook"@,
                obj_of(
                    seq![
                        rfield(
                            "include_mathematical_proof"@,
                            jbool(m.include_mathematical_proof),
                        ),
                        rfield(
                            "include_implementation_details"@,
                            jbool(m.include_implementation_details),
                        ),
                        rfield("runnable_code"@, jbool(m.runnable_code)),
                    ],
                ),
            ),
        ],
        None => Seq::empty(),
    }) + (match h.vue_site {
        Some(v) => seq![
            rfield(
                "vue_site"@,
                obj_of(
                    seq![rfield("include_live_demo"@, jbool(v.include_live_demo))] + opt_piece(
                        v.seo_keywords@.len() > 0,
                        rfield("seo_keywords"@, sarr(v.seo_keywords@.map_values(|x: String| x@))),
                    ) + (match v.og_image {
                        Some(img) => seq![sfield("og_image"@, img@)],
                        None => Seq::empty(),
                    }),
                ),
            ),
        ],
        None => Seq::empty(),
    }) + (match h.api_docs {
        Some(a) => seq![
            rfield(
                "api_docs"@,
                obj_of(
                    seq![
                        rfield("include_playground"@, jbool(a.include_playground)),
                        rfield("show_all_languages"@, jbool(a.show_all_languages)),
                    ],
                ),
            ),
        ],
        None => Seq::empty(),
    }) + (match h.llm_rag {
        Some(r) => seq![
            rfield(
                "llm_rag"@,
                obj_of(
                    seq![
                        sfield("chunk_strategy"@, r.chunk_strategy@),
                        rfield("max_chunk_size"@, dec_str(r.max_chunk_size as nat)),
                        sfield("embedding_priority"@, r.embedding_priority@),
                    ],
                ),
            ),
        ],
        None => Seq::empty(),
    }) + (match h.colab {
        Some(c) => seq![
            rfield(
                "colab"@,
                obj_of(
                    seq![
                        rfield("include_gpu_example"@, jbool(c.include_gpu_example)),
                        sfield("install_command"@, c.install_command@),
                    ],
                ),
            ),
        ],
        None => Seq::empty(),
    }) + (match h.latex {
        Some(l) => seq![
            rfield(
                "latex"@,
                obj_of(
                    seq![sfield("document_class"@, l.document_class@)] + opt_piece(
                        l.additional_packages@.len() > 0,
                        rfield(
                            "additional_packages"@,
                            sarr(l.additional_packages@.map_values(|x: String| x@)),
                        ),
                    ),
                ),
            ),
        ],
        None => Seq::empty(),
    })
}

fn make_jupyter_hint(j: &crate::schema::JupyterHints) -> (r: String)
    ensures
        r@ == rfield(
            "jupyter"@,
            obj_of(
                seq![
                    rfield("include_interactive_plots"@, jbool(j.include_interactive_plots)),
                    rfield("include_performance_section"@, jbool(j.include_performance_section)),
                ] + (match j.custom_intro {
                    Some(ci) => seq![sfield("custom_intro"@, ci@)],
                    None => Seq::<Seq<char>>::empty(),
                }),
            ),
        ),
{
    let mut inner: Vec<String> = Vec::new();
    push_field(
        &mut inner,
        make_rfield("include_interactive_plots", make_bool(j.include_interactive_plots)),
    );
    push_field(
        &mut inner,
        make_rfield("include_performance_section", make_bool(j.include_performance_section)),
    );
    if let Some(ci) = &j.custom_intro {
        push_field(&mut inner, make_sfield("custom_intro", ci.as_str()));
    }
    let mut v = String::new();
    append_obj(&mut v, &inner);
    proof {
        assert(inner@.map_values(|x: String| x@) =~= seq![
            rfield("include_interactive_plots"@, jbool(j.include_interactive_plots)),
            rfield("include_performance_section"@, jbool(j.include_performance_section)),
        ] + (match j.custom_intro {
            Some(ci) => seq![sfield("custom_intro"@, ci@)],
            None => Seq::<Seq<char>>::empty(),
        }));
    }
    make_rfield("jupyter", v)
}

fn make_mdbook_hint(m: &crate::schema::MdBookHints) -> (r: String)
    ensures
        r@ == rfield(
            "mdbook"@,
            obj_of(
                seq![
                    rfield("include_mathematical_proof"@, jbool(m.include_mathematical_proof)),
                    rfield(
                        "include_implementation_details"@,
                        jbool(m.include_implementation_details),
                    ),
                    rfield("runnable_code"@, jbool(m.runnable_code)),
                ],
            ),
        ),
{
    let mut inner: Vec<String> = Vec::new();
    push_field(
        &mut inner,
        make_rfield("include_mathematical_proof", make_bool(m.include_mathematical_proof)),
    );
    push_field(
        &mut inner,
        make_rfield(
            "include_implementation_details",
            make_bool(m.include_implementation_details),
        ),
    );
    push_field(&mut inner, make_rfield("runnable_code", make_bool(m.runnable_code)));
    let mut v = String::new();
    append_obj(&mut v, &inner);
    proof {
        assert(inner@.map_values(|x: String| x@) =~= seq![
            rfield("include_mathematical_proof"@, jbool(m.include_mathematical_proof)),
            rfield("include_implementation_details"@, jbool(m.include_implementation_details)),
            rfield("runnable_code"@, jbool(m.runnable_code)),
        ]);
    }
    make_rfield("mdbook", v)
}

fn make_vue_hint(vs: &crate::schema::VueSiteHints) -> (r: String)
    ensures
        r@ == rfield(
            "vue_site"@,
            obj_of(
                seq![rfield("include_live_demo"@, jbool(vs.include_live_demo))] + opt_piece(
                    vs.seo_keywords@.len() > 0,
                    rfield("seo_keywords"@, sarr(vs.seo_keywords@.map_values(|x: String| x@))),
                ) + (match vs.og_image {
                    Some(img) => seq![sfield("og_image"@, img@)],
                    None => Seq::<Seq<char>>::empty(),
                }),
            ),
        ),
{
    let mut inner: Vec<String> = Vec::new();
    push_field(&mut inner, make_rfield("include_live_demo", make_bool(vs.include_live_demo)));
    if vs.seo_keywords.len() > 0 {
        push_field(&mut inner, make_rfield("seo_keywords", make_sarr(&vs.seo_keywords)));
    }
    if let Some(img) = &vs.og_image {
        push_field(&mut inner, make_sfield("og_image", img.as_str()));
    }
    let mut v = String::new();
    append_obj(&mut v, &inner);
    proof {
        assert(inner@.map_values(|x: String| x@) =~= seq![
            rfield("include_live_demo"@, jbool(vs.include_live_demo)),
        ] + opt_piece(
            vs.seo_keywords@.len() > 0,
            rfield("seo_keywords"@, sarr(vs.seo_keywords@.map_values(|x: String| x@))),
        ) + (match vs.og_image {
            Some(img) => seq![sfield("og_image"@, img@)],
            None => Seq::<Seq<char>>::empty(),
        }));
    }
    make_rfield("vue_site", v)
}

fn make_api_docs_hint(a: &crate::schema::ApiDocsHints) -> (r: String)
    ensures
        r@ == rfield(
            "api_docs"@,
            obj_of(
                seq![
                    rfield("include_playground"@, jbool(a.include_playground)),
                    rfield("show_all_languages"@, jbool(a.show_all_languages)),
                ],
            ),
        ),
{
    let mut inner: Vec<String> = Vec::new();
    push_field(&mut inner, make_rfield("include_playground", make_bool(a.include_playground)));
    push_field(&mut inner, make_rfield("show_all_languages", make_bool(a.show_all_languages)));
    let mut v = String::new();
    append_obj(&mut v, &inner);
    proof {
        assert(inner@.map_values(|x: String| x@) =~= seq![
            rfield("include_playground"@, jbool(a.include_playground)),
            rfield("show_all_languages"@, jbool(a.show_all_languages)),
        ]);
    }
    make_rfield("api_docs", v)
}

fn make_llm_rag_hint(r: &crate::schema::LlmRagHints) -> (res: String)
    ensures
        res@ == rfield(
            "llm_rag"@,
            obj_of(
                seq![
                    sfield("chunk_strategy"@, r.chunk_strategy@),
                    rfield("max_chunk_size"@, dec_str(r.max_chunk_size as nat)),
                    sfield("embedding_priority"@, r.embedding_priority@),
                ],
            ),
        ),
{
    let mut inner: Vec<String> = Vec::new();
    push_field(&mut inner, make_sfield("chunk_strategy", r.chunk_strategy.as_str()));
    push_field(&mut inner, make_rfield("max_chunk_size", make_usize(r.max_chunk_size)));
    push_field(&mut inner, make_sfield("embedding_priority", r.embedding_priority.as_str()));
    let mut v = String::new();
    append_obj(&mut v, &inner);
    proof {
        assert(inner@.map_values(|x: String| x@) =~= seq![
            sfield("chunk_strategy"@, r.chunk_strategy@),
            rfield("max_chunk_size"@, dec_str(r.max_chunk_size as nat)),
            sfield("embedding_priority"@, r.embedding_priority@),
        ]);
    }
    make_rfield("llm_rag", v)
}

fn make_colab_hint(c: &crate::schema::ColabHints) -> (r: String)
    ensures
        r@ == rfield(
            "colab"@,
            obj_of(
                seq![
                    rfield("include_gpu_example"@, jbool(c.include_gpu_example)),
                    sfield("install_command"@, c.install_command@),
                ],
            ),
        ),
{
    let mut inner: Vec<String> = Vec::new();
    push_field(&mut inner, make_rfield("include_gpu_example", make_bool(c.include_gpu_example)));
    push_field(&mut inner, make_sfield("install_command", c.install_command.as_str()));
    let mut v = String::new();
    append_obj(&mut v, &inner);
    proof {
        assert(inner@.map_values(|x: String| x@) =~= seq![
            rfield("include_gpu_example"@, jbool(c.include_gpu_example)),
            sfield("install_command"@, c.install_command@),
        ]);
    }
    make_rfield("colab", v)
}

fn make_latex_hint(l: &crate::schema::LatexHints) -> (r: String)
    ensures
        r@ == rfield(
            "latex"@,
            obj_of(
                seq![sfield("document_class"@, l.document_class@)] + opt_piece(
                    l.additional_packages@.len() > 0,
                    rfield(
                        "additional_packages"@,
                        sarr(l.additional_packages@.map_values(|x: String| x@)),
                    ),
                ),
            ),
        ),
{
    let mut inner: Vec<String> = Vec::new();
    push_field(&mut inner, make_sfield("document_class", l.document_class.as_str()));
    if l.additional_packages.len() > 0 {
        push_field(
            &mut inner,
            make_rfield("additional_packages", make_sarr(&l.additional_packages)),
        );
    }
    let mut v = String::new();
    append_obj(&mut v, &inner);
    proof {
        assert(inner@.map_values(|x: String| x@) =~= seq![
            sfield("document_class"@, l.document_class@),
        ] + opt_piece(
            l.additional_packages@.len() > 0,
            rfield(
                "additional_packages"@,
                sarr(l.additional_packages@.map_values(|x: String| x@)),
            ),
        ));
    }
    make_rfield("latex", v)
}

#[verifier::rlimit(100)]
fn make_hints(h: &OutputHints) -> (r: String)
    ensures
        r@ == obj_of(hints_fields(*h)),
{
    let mut fields: Vec<String> = Vec::new();
    if let Some(j) = &h.jupyter {
        push_field(&mut fields, make_jupyter_hint(j));
    }
    if let Some(m) = &h.mdbook {
        push_field(&mut fields, make_mdbook_hint(m));
    }
    if let Some(vs) = &h.vue_site {
        push_field(&mut fields, make_vue_hint(vs));
    }
    if let Some(a) = &h.api_docs {
        push_field(&mut fields, make_api_docs_hint(a));
    }
    if let Some(r) = &h.llm_rag {
        push_field(&mut fields, make_llm_rag_hint(r));
    }
    if let Some(c) = &h.colab {
        push_field(&mut fields, make_colab_hint(c));
    }
    if let Some(l) = &h.latex {
        push_field(&mut fields, make_latex_hint(l));
    }
    proof {
        assert(fields@.map_values(|x: String| x@) =~= hints_fields(*h));
    }
    let mut out = String::new();
    append_obj(&mut out, &fields);
    out
}

/// The SEO fields from the twitter card on.
pub open spec fn seo_fields_tail(s: SeoMetadata) -> Seq<Seq<char>> {
    seq![sfield("twitter_card"@, s.twitter_card@)] + (match s.schema_org_type {
        Some(v) => seq![sfield("schema_org_type"@, v@)],
        None => Seq::empty(),
    }) + seq![
        rfield("priority"@, crate::sitemap::priority_str(s.priority_tenths as nat)),
        sfield("change_frequency"@, s.change_frequency@),
        sfield("language"@, s.language@),
    ] + opt_piece(
        s.alternate_languages@.len() > 0,
        rfield(
            "alternate_languages"@,
            obj_of(
                s.alternate_languages@.map_values(|kv: (String, String)| kv_field(kv.0@, kv.1@)),
            ),
        ),
    )
}

/// The SEO object.
pub open spec fn seo_fields(s: SeoMetadata) -> Seq<Seq<char>> {
    seo_fields_head(s) + seo_fields_tail(s)
}

/// The always-present and option-string parts of the SEO object, before
/// the priority line.
pub open spec fn seo_fields_head(s: SeoMetadata) -> Seq<Seq<char>> {
    opt_piece(
        s.keywords@.len() > 0,
        rfield("keywords"@, sarr(s.keywords@.map_values(|x: String| x@))),
    ) + opt_piece(
        s.secondary_keywords@.len() > 0,
        rfield("secondary_keywords"@, sarr(s.secondary_keywords@.map_values(|x: String| x@))),
    ) + (match s.meta_description {
        Some(v) => seq![sfield("meta_description"@, v@)],
        None => Seq::empty(),
    }) + (match s.canonical_url {
        Some(v) => seq![sfield("canonical_url"@, v@)],
        None => Seq::empty(),
    }) + (match s.og_title {
        Some(v) => seq![sfield("og_title"@, v@)],
        None => Seq::empty(),
    }) + (match s.og_description {
        Some(v) => seq![sfield("og_description"@, v@)],
        None => Seq::empty(),
    }) + (match s.og_image {
        Some(v) => seq![sfield("og_image"@, v@)],
        None => Seq::empty(),
    })
}

#[verifier::rlimit(100)]
fn make_seo_head_fields(s: &SeoMetadata) -> (fields: Vec<String>)
    ensures
        fields@.map_values(|x: String| x@) == seo_fields_head(*s),
{
    let mut fields: Vec<String> = Vec::new();
    if s.keywords.len() > 0 {
        push_field(&mut fields, make_rfield("keywords", make_sarr(&s.keywords)));
    }
    if s.secondary_keywords.len() > 0 {
        push_field(
            &mut fields,
            make_rfield("secondary_keywords", make_sarr(&s.secondary_keywords)),
        );
    }
    if let Some(v) = &s.meta_description {
        push_field(&mut fields, make_sfield("meta_description", v.as_str()));
    }
    if let Some(v) = &s.canonical_url {
        push_field(&mut fields, make_sfield("canonical_url", v.as_str()));
    }
    if let Some(v) = &s.og_title {
        push_field(&mut fields, make_sfield("og_title", v.as_str()));
    }
    if let Some(v) = &s.og_description {
        push_field(&mut fields, make_sfield("og_description", v.as_str()));
    }
    if let Some(v) = &s.og_image {
        push_field(&mut fields, make_sfield("og_image", v.as_str()));
    }
    proof {
        assert(fields@.map_values(|x: String| x@) =~= seo_fields_head(*s));
    }
    fields
}

#[verifier::rlimit(100)]
fn make_seo_tail_fields(s: &SeoMetadata) -> (fields: Vec<String>)
    ensures
        fields@.map_values(|x: String| x@) == seo_fields_tail(*s),
{
    let mut fields: Vec<String> = Vec::new();
    push_field(&mut fields, make_sfield("twitter_card", s.twitter_card.as_str()));
    if let Some(v) = &s.schema_org_type {
        push_field(&mut fields, make_sfield("schema_org_type", v.as_str()));
    }
    let mut prio = String::new();
    crate::sitemap::append_priority(&mut prio, s.priority_tenths);
    push_field(&mut fields, make_rfield("priority", prio));
    push_field(&mut fields, make_sfield("change_frequency", s.change_frequency.as_str()));
    push_field(&mut fields, make_sfield("language", s.language.as_str()));
    if s.alternate_languages.len() > 0 {
        push_field(
            &mut fields,
            make_rfield("alternate_languages", make_pairs_obj(&s.alternate_languages)),
        );
    }
    proof {
        assert(fields@.map_values(|x: String| x@) =~= seo_fields_tail(*s));
    }
    fields
}

fn make_seo(s: &SeoMetadata) -> (r: String)
    ensures
        r@ == obj_of(seo_fields(*s)),
{
    let mut fields: Vec<String> = make_seo_head_fields(s);
    let mut tail: Vec<String> = make_seo_tail_fields(s);
    let ghost head_views = fields@.map_values(|x: String| x@);
    let ghost tail_views = tail@.map_values(|x: String| x@);
    fields.append(&mut tail);
    proof {
        assert(fields@.map_values(|x: String| x@) =~= head_views + tail_views);
    }
    let mut out = String::new();
    append_obj(&mut out, &fields);
    out
}


/// The introduction object.
pub open spec fn intro_fields(i: crate::article::Introduction) -> Seq<Seq<char>> {
    seq![sfield("hook"@, i.hook@)] + opt_piece(
        i.learning_objectives@.len() > 0,
        rfield("learning_objectives"@, sarr(i.learning_objectives@.map_values(|x: String| x@))),
    ) + opt_piece(
        i.prerequisites@.len() > 0,
        rfield("prerequisites"@, sarr(i.prerequisites@.map_values(|x: String| x@))),
    ) + (match i.estimated_time {
        Some(t) => seq![sfield("estimated_time"@, t@)],
        None => Seq::empty(),
    })
}

fn make_intro(i: &crate::article::Introduction) -> (r: String)
    ensures
        r@ == obj_of(intro_fields(*i)),
{
    let mut fields: Vec<String> = Vec::new();
    push_field(&mut fields, make_sfield("hook", i.hook.as_str()));
    if i.learning_objectives.len() > 0 {
        push_field(
            &mut fields,
            make_rfield("learning_objectives", make_sarr(&i.learning_objectives)),
        );
    }
    if i.prerequisites.len() > 0 {
        push_field(&mut fields, make_rfield("prerequisites", make_sarr(&i.prerequisites)));
    }
    if let Some(t) = &i.estimated_time {
        push_field(&mut fields, make_sfield("estimated_time", t.as_str()));
    }
    proof {
        assert(fields@.map_values(|x: String| x@) =~= intro_fields(*i));
    }
    let mut out = String::new();
    append_obj(&mut out, &fields);
    out
}

/// One subsection object.
pub open spec fn subsection_obj(ss: crate::article::SubSection) -> Seq<char> {
    obj_of(seq![sfield("title"@, ss.title@), sfield("content"@, ss.content@)])
}

/// One section object.
pub open spec fn section_fields(sec: crate::article::Section) -> Seq<Seq<char>> {
    seq![sfield("title"@, sec.title@), sfield("content"@, sec.content@)] + opt_piece(
        sec.subsections@.len() > 0,
        rfield(
            "subsections"@,
            arr_of(sec.subsections@.map_values(|ss: crate::article::SubSection| subsection_obj(ss))),
        ),
    ) + opt_piece(
        sec.code_examples@.len() > 0,
        rfield("code_examples"@, sarr(sec.code_examples@.map_values(|x: String| x@))),
    ) + (match sec.math_content {
        Some(m) => seq![sfield("math_content"@, m@)],
        None => Seq::empty(),
    })
}

fn make_section(sec: &crate::article::Section) -> (r: String)
    ensures
        r@ == obj_of(section_fields(*sec)),
{
    let mut fields: Vec<String> = Vec::new();
    push_field(&mut fields, make_sfield("title", sec.title.as_str()));
    push_field(&mut fields, make_sfield("content", sec.content.as_str()));
    if sec.subsections.len() > 0 {
        let mut elems: Vec<String> = Vec::new();
        let n = sec.subsections.len();
        let mut j: usize = 0;
        while j < n
            invariant
                n == sec.subsections@.len(),
                j <= n,
                elems@.map_values(|x: String| x@) == sec.subsections@.map_values(
                    |ss: crate::article::SubSection| subsection_obj(ss),
                ).take(j as int),
            decreases n - j,
        {
            let ss = &sec.subsections[j];
            let mut inner: Vec<String> = Vec::new();
            push_field(&mut inner, make_sfield("title", ss.title.as_str()));
            push_field(&mut inner, make_sfield("content", ss.content.as_str()));
            let mut v = String::new();
            append_obj(&mut v, &inner);
            proof {
                assert(inner@.map_values(|x: String| x@) =~= seq![
                    sfield("title"@, ss.title@),
                    sfield("content"@, ss.content@),
                ]);
            }
            push_field(&mut elems, v);
            j = j + 1;
            proof {
                assert(elems@.map_values(|x: String| x@) =~= sec.subsections@.map_values(
                    |ss: crate::article::SubSection| subsection_obj(ss),
                ).take(j as int));
            }
        }
        proof {
            assert(sec.subsections@.map_values(
                |ss: crate::article::SubSection| subsection_obj(ss),
            ).take(n as int) =~= sec.subsections@.map_values(
                |ss: crate::article::SubSection| subsection_obj(ss),
            ));
        }
        let mut v = String::new();
        append_arr(&mut v, &elems);
        push_field(&mut fields, make_rfield("subsections", v));
    }
    if sec.code_examples.len() > 0 {
        push_field(&mut fields, make_rfield("code_examples", make_sarr(&sec.code_examples)));
    }
    if let Some(m) = &sec.math_content {
        push_field(&mut fields, make_sfield("math_content", m.as_str()));
    }
    proof {
        assert(fields@.map_values(|x: String| x@) =~= section_fields(*sec));
    }
    let mut out = String::new();
    append_obj(&mut out, &fields);
    out
}

/// One further-reading resource object.
pub open spec fn resource_obj(r: crate::article::Resource) -> Seq<char> {
    obj_of(
        seq![sfield("title"@, r.title@)] + (match r.url {
            Some(u) => seq![sfield("url"@, u@)],
            None => Seq::empty(),
        }) + (match r.description {
            Some(d) => seq![sfield("description"@, d@)],
            None => Seq::empty(),
        }),
    )
}

fn make_resource(r: &crate::article::Resource) -> (res: String)
    ensures
        res@ == resource_obj(*r),
{
    let mut fields: Vec<String> = Vec::new();
    push_field(&mut fields, make_sfield("title", r.title.as_str()));
    if let Some(u) = &r.url {
        push_field(&mut fields, make_sfield("url", u.as_str()));
    }
    if let Some(d) = &r.description {
        push_field(&mut fields, make_sfield("description", d.as_str()));
    }
    proof {
        assert(fields@.map_values(|x: String| x@) =~= seq![sfield("title"@, r.title@)] + (
        match r.url {
            Some(u) => seq![sfield("url"@, u@)],
            None => Seq::<Seq<char>>::empty(),
        }) + (match r.description {
            Some(d) => seq![sfield("description"@, d@)],
            None => Seq::<Seq<char>>::empty(),
        }));
    }
    let mut out = String::new();
    append_obj(&mut out, &fields);
    out
}

/// The lowercase name of a difficulty, as the document stores it.
pub open spec fn difficulty_json(d: crate::article::ExerciseDifficulty) -> Seq<char> {
    match d {
        crate::article::ExerciseDifficulty::Beginner => "beginner"@,
        crate::article::ExerciseDifficulty::Intermediate => "intermediate"@,
        crate::article::ExerciseDifficulty::Advanced => "advanced"@,
        crate::article::ExerciseDifficulty::Expert => "expert"@,
    }
}

/// One exercise object.
pub open spec fn exercise_obj(e: crate::article::Exercise) -> Seq<char> {
    obj_of(
        seq![sfield("prompt"@, e.prompt@), sfield("difficulty"@, difficulty_json(e.difficulty))]
            + opt_piece(
            e.hints@.len() > 0,
            rfield("hints"@, sarr(e.hints@.map_values(|x: String| x@))),
        ) + (match e.solution {
            Some(sol) => seq![sfield("solution"@, sol@)],
            None => Seq::empty(),
        }),
    )
}

fn make_exercise(e: &crate::article::Exercise) -> (res: String)
    ensures
        res@ == exercise_obj(*e),
{
    let mut fields: Vec<String> = Vec::new();
    push_field(&mut fields, make_sfield("prompt", e.prompt.as_str()));
    let difficulty = match e.difficulty {
        crate::article::ExerciseDifficulty::Beginner => "beginner",
        crate::article::ExerciseDifficulty::Intermediate => "intermediate",
        crate::article::ExerciseDifficulty::Advanced => "advanced",
        crate::article::ExerciseDifficulty::Expert => "expert",
    };
    push_field(&mut fields, make_sfield("difficulty", difficulty));
    if e.hints.len() > 0 {
        push_field(&mut fields, make_rfield("hints", make_sarr(&e.hints)));
    }
    if let Some(sol) = &e.solution {
        push_field(&mut fields, make_sfield("solution", sol.as_str()));
    }
    proof {
        assert(fields@.map_values(|x: String| x@) =~= seq![
            sfield("prompt"@, e.prompt@),
            sfield("difficulty"@, difficulty_json(e.difficulty)),
        ] + opt_piece(
            e.hints@.len() > 0,
            rfield("hints"@, sarr(e.hints@.map_values(|x: String| x@))),
        ) + (match e.solution {
            Some(sol) => seq![sfield("solution"@, sol@)],
            None => Seq::<Seq<char>>::empty(),
        }));
    }
    let mut out = String::new();
    append_obj(&mut out, &fields);
    out
}

/// The conclusion object.
pub open spec fn conclusion_fields(c: crate::article::Conclusion) -> Seq<Seq<char>> {
    seq![sfield("summary"@, c.summary@)] + opt_piece(
        c.next_steps@.len() > 0,
        rfield("next_steps"@, sarr(c.next_steps@.map_values(|x: String| x@))),
    ) + opt_piece(
        c.further_reading@.len() > 0,
        rfield(
            "further_reading"@,
            arr_of(c.further_reading@.map_values(|r: crate::article::Resource| resource_obj(r))),
        ),
    ) + opt_piece(
        c.exercises@.len() > 0,
        rfield(
            "exercises"@,
            arr_of(c.exercises@.map_values(|e: crate::article::Exercise| exercise_obj(e))),
        ),
    )
}

#[verifier::rlimit(100)]
fn make_conclusion(c: &crate::article::Conclusion) -> (res: String)
    ensures
        res@ == obj_of(conclusion_fields(*c)),
{
    let mut fields: Vec<String> = Vec::new();
    push_field(&mut fields, make_sfield("summary", c.summary.as_str()));
    if c.next_steps.len() > 0 {
        push_field(&mut fields, make_rfield("next_steps", make_sarr(&c.next_steps)));
    }
    if c.further_reading.len() > 0 {
        let mut elems: Vec<String> = Vec::new();
        let n = c.further_reading.len();
        let mut j: usize = 0;
        while j < n
            invariant
                n == c.further_reading@.len(),
                j <= n,
                elems@.map_values(|x: String| x@) == c.further_reading@.map_values(
                    |r: crate::article::Resource| resource_obj(r),
                ).take(j as int),
            decreases n - j,
        {
            push_field(&mut elems, make_resource(&c.further_reading[j]));
            j = j + 1;
            proof {
                assert(elems@.map_values(|x: String| x@) =~= c.further_reading@.map_values(
                    |r: crate::article::Resource| resource_obj(r),
                ).take(j as int));
            }
        }
        proof {
            assert(c.further_reading@.map_values(
                |r: crate::article::Resource| resource_obj(r),
            ).take(n as int) =~= c.further_reading@.map_values(
                |r: crate::article::Resource| resource_obj(r),
            ));
        }
        let mut v = String::new();
        append_arr(&mut v, &elems);
        push_field(&mut fields, make_rfield("further_reading", v));
    }
    if c.exercises.len() > 0 {
        let mut elems: Vec<String> = Vec::new();
        let n = c.exercises.len();
        let mut j: usize = 0;
        while j < n
            invariant
                n == c.exercises@.len(),
                j <= n,
                elems@.map_values(|x: String| x@) == c.exercises@.map_values(
                    |e: crate::article::Exercise| exercise_obj(e),
                ).take(j as int),
            decreases n - j,
        {
            push_field(&mut elems, make_exercise(&c.exercises[j]));
            j = j + 1;
            proof {
                assert(elems@.map_values(|x: String| x@) =~= c.exercises@.map_values(
                    |e: crate::article::Exercise| exercise_obj(e),
                ).take(j as int));
            }
        }
        proof {
            assert(c.exercises@.map_values(|e: crate::article::Exercise| exercise_obj(e)).take(
                n as int,
            ) =~= c.exercises@.map_values(|e: crate::article::Exercise| exercise_obj(e)));
        }
        let mut v = String::new();
        append_arr(&mut v, &elems);
        push_field(&mut fields, make_rfield("exercises", v));
    }
    proof {
        assert(fields@.map_values(|x: String| x@) =~= conclusion_fields(*c));
    }
    let mut out = String::new();
    append_obj(&mut out, &fields);
    out
}

/// The lowercase name of a sidebar type, as the document stores it.
pub open spec fn sidebar_type_json(t: crate::article::SidebarType) -> Seq<char> {
    match t {
        crate::article::SidebarType::Tip => "tip"@,
        crate::article::SidebarType::Warning => "warning"@,
        crate::article::SidebarType::Note => "note"@,
        crate::article::SidebarType::Info => "info"@,
        crate::article::SidebarType::Performance => "performance"@,
        crate::article::SidebarType::BestPractice => "bestpractice"@,
    }
}

/// One sidebar object.
pub open spec fn sidebar_obj(sb: crate::article::Sidebar) -> Seq<char> {
    obj_of(
        seq![
            sfield("type"@, sidebar_type_json(sb.sidebar_type)),
            sfield("title"@, sb.title@),
            sfield("content"@, sb.content@),
        ],
    )
}

fn make_sidebar(sb: &crate::article::Sidebar) -> (res: String)
    ensures
        res@ == sidebar_obj(*sb),
{
    let mut fields: Vec<String> = Vec::new();
    let t = match sb.sidebar_type {
        crate::article::SidebarType::Tip => "tip",
        crate::article::SidebarType::Warning => "warning",
        crate::article::SidebarType::Note => "note",
        crate::article::SidebarType::Info => "info",
        crate::article::SidebarType::Performance => "performance",
        crate::article::SidebarType::BestPractice => "bestpractice",
    };
    push_field(&mut fields, make_sfield("type", t));
    push_field(&mut fields, make_sfield("title", sb.title.as_str()));
    push_field(&mut fields, make_sfield("content", sb.content.as_str()));
    proof {
        assert(fields@.map_values(|x: String| x@) =~= seq![
            sfield("type"@, sidebar_type_json(sb.sidebar_type)),
            sfield("title"@, sb.title@),
            sfield("content"@, sb.content@),
        ]);
    }
    let mut out = String::new();
    append_obj(&mut out, &fields);
    out
}

/// The notebook-variation object.
pub open spec fn jupyter_variation_obj(j: crate::article::JupyterArticle) -> Seq<char> {
    obj_of(
        (match j.tutorial_intro {
            Some(t) => seq![sfield("tutorial_intro"@, t@)],
            None => Seq::empty(),
        }) + opt_piece(
            j.interactive_prompts@.len() > 0,
            rfield(
                "interactive_prompts"@,
                sarr(j.interactive_prompts@.map_values(|x: String| x@)),
            ),
        ) + opt_piece(
            j.checkpoint_questions@.len() > 0,
            rfield(
                "checkpoint_questions"@,
                sarr(j.checkpoint_questions@.map_values(|x: String| x@)),
            ),
        ),
    )
}

fn make_jupyter_variation(j: &crate::article::JupyterArticle) -> (res: String)
    ensures
        res@ == jupyter_variation_obj(*j),
{
    let mut fields: Vec<String> = Vec::new();
    if let Some(t) = &j.tutorial_intro {
        push_field(&mut fields, make_sfield("tutorial_intro", t.as_str()));
    }
    if j.interactive_prompts.len() > 0 {
        push_field(
            &mut fields,
            make_rfield("interactive_prompts", make_sarr(&j.interactive_prompts)),
        );
    }
    if j.checkpoint_questions.len() > 0 {
        push_field(
            &mut fields,
            make_rfield("checkpoint_questions", make_sarr(&j.checkpoint_questions)),
        );
    }
    proof {
        assert(fields@.map_values(|x: String| x@) =~= (match j.tutorial_intro {
            Some(t) => seq![sfield("tutorial_intro"@, t@)],
            None => Seq::<Seq<char>>::empty(),
        }) + opt_piece(
            j.interactive_prompts@.len() > 0,
            rfield(
                "interactive_prompts"@,
                sarr(j.interactive_prompts@.map_values(|x: String| x@)),
            ),
        ) + opt_piece(
            j.checkpoint_questions@.len() > 0,
            rfield(
                "checkpoint_questions"@,
                sarr(j.checkpoint_questions@.map_values(|x: String| x@)),
            ),
        ));
    }
    let mut out = String::new();
    append_obj(&mut out, &fields);
    out
}

/// One deep-dive object.
pub open spec fn deep_dive_obj(d: crate::article::DeepDive) -> Seq<char> {
    obj_of(seq![sfield("title"@, d.title@), sfield("content"@, d.content@)])
}

/// The reference-doc-variation object.
pub open spec fn mdbook_variation_obj(m: crate::article::MdBookArticle) -> Seq<char> {
    obj_of(
        opt_piece(
            m.deep_dives@.len() > 0,
            rfield(
                "deep_dives"@,
                arr_of(m.deep_dives@.map_values(|d: crate::article::DeepDive| deep_dive_obj(d))),
            ),
        ) + (match m.implementation_notes {
            Some(v) => seq![sfield("implementation_notes"@, v@)],
            None => Seq::empty(),
        }) + (match m.complexity_analysis {
            Some(v) => seq![sfield("complexity_analysis"@, v@)],
            None => Seq::empty(),
        }),
    )
}

fn make_mdbook_variation(m: &crate::article::MdBookArticle) -> (res: String)
    ensures
        res@ == mdbook_variation_obj(*m),
{
    let mut fields: Vec<String> = Vec::new();
    if m.deep_dives.len() > 0 {
        let mut elems: Vec<String> = Vec::new();
        let n = m.deep_dives.len();
        let mut j: usize = 0;
        while j < n
            invariant
                n == m.deep_dives@.len(),
                j <= n,
                elems@.map_values(|x: String| x@) == m.deep_dives@.map_values(
                    |d: crate::article::DeepDive| deep_dive_obj(d),
                ).take(j as int),
            decreases n - j,
        {
            let d = &m.deep_dives[j];
            let mut inner: Vec<String> = Vec::new();
            push_field(&mut inner, make_sfield("title", d.title.as_str()));
            push_field(&mut inner, make_sfield("content", d.content.as_str()));
            let mut v = String::new();
            append_obj(&mut v, &inner);
            proof {
                assert(inner@.map_values(|x: String| x@) =~= seq![
                    sfield("title"@, d.title@),
                    sfield("content"@, d.content@),
                ]);
            }
            push_field(&mut elems, v);
            j = j + 1;
            proof {
                assert(elems@.map_values(|x: String| x@) =~= m.deep_dives@.map_values(
                    |d: crate::article::DeepDive| deep_dive_obj(d),
                ).take(j as int));
            }
        }
        proof {
            assert(m.deep_dives@.map_values(|d: crate::article::DeepDive| deep_dive_obj(d)).take(
                n as int,
            ) =~= m.deep_dives@.map_values(|d: crate::article::DeepDive| deep_dive_obj(d)));
        }
        let mut v = String::new();
        append_arr(&mut v, &elems);
        push_field(&mut fields, make_rfield("deep_dives", v));
    }
    if let Some(v) = &m.implementation_notes {
        push_field(&mut fields, make_sfield("implementation_notes", v.as_str()));
    }
    if let Some(v) = &m.complexity_analysis {
        push_field(&mut fields, make_sfield("complexity_analysis", v.as_str()));
    }
    proof {
        assert(fields@.map_values(|x: String| x@) =~= opt_piece(
            m.deep_dives@.len() > 0,
            rfield(
                "deep_dives"@,
                arr_of(m.deep_dives@.map_values(|d: crate::article::DeepDive| deep_dive_obj(d))),
            ),
        ) + (match m.implementation_notes {
            Some(v) => seq![sfield("implementation_notes"@, v@)],
            None => Seq::<Seq<char>>::empty(),
        }) + (match m.complexity_analysis {
            Some(v) => seq![sfield("complexity_analysis"@, v@)],
            None => Seq::<Seq<char>>::empty(),
        }));
    }
    let mut out = String::new();
    append_obj(&mut out, &fields);
    out
}

/// One use-case-story object.
pub open spec fn story_obj(u: crate::article::UseCaseStory) -> Seq<char> {
    obj_of(
        seq![
            sfield("title"@, u.title@),
            sfield("problem"@, u.problem@),
            sfield("solution"@, u.solution@),
            sfield("outcome"@, u.outcome@),
        ],
    )
}

/// The site-variation object.
pub open spec fn vue_variation_obj(v: crate::article::VueSiteArticle) -> Seq<char> {
    obj_of(
        (match v.marketing_hook {
            Some(h) => seq![sfield("marketing_hook"@, h@)],
            None => Seq::empty(),
        }) + opt_piece(
            v.use_case_stories@.len() > 0,
            rfield(
                "use_case_stories"@,
                arr_of(
                    v.use_case_stories@.map_values(|u: crate::article::UseCaseStory| story_obj(u)),
                ),
            ),
        ) + (match v.call_to_action {
            Some(c) => seq![sfield("call_to_action"@, c@)],
            None => Seq::empty(),
        }),
    )
}

#[verifier::rlimit(100)]
fn make_vue_variation(v: &crate::article::VueSiteArticle) -> (res: String)
    ensures
        res@ == vue_variation_obj(*v),
{
    let mut fields: Vec<String> = Vec::new();
    if let Some(h) = &v.marketing_hook {
        push_field(&mut fields, make_sfield("marketing_hook", h.as_str()));
    }
    if v.use_case_stories.len() > 0 {
        let mut elems: Vec<String> = Vec::new();
        let n = v.use_case_stories.len();
        let mut j: usize = 0;
        while j < n
            invariant
                n == v.use_case_stories@.len(),
                j <= n,
                elems@.map_values(|x: String| x@) == v.use_case_stories@.map_values(
                    |u: crate::article::UseCaseStory| story_obj(u),
                ).take(j as int),
            decreases n - j,
        {
            let u = &v.use_case_stories[j];
            let mut inner: Vec<String> = Vec::new();
            push_field(&mut inner, make_sfield("title", u.title.as_str()));
            push_field(&mut inner, make_sfield("problem", u.problem.as_str()));
            push_field(&mut inner, make_sfield("solution", u.solution.as_str()));
            push_field(&mut inner, make_sfield("outcome", u.outcome.as_str()));
            let mut vv = String::new();
            append_obj(&mut vv, &inner);
            proof {
                assert(inner@.map_values(|x: String| x@) =~= seq![
                    sfield("title"@, u.title@),
                    sfield("problem"@, u.problem@),
                    sfield("solution"@, u.solution@),
                    sfield("outcome"@, u.outcome@),
                ]);
            }
            push_field(&mut elems, vv);
            j = j + 1;
            proof {
                assert(elems@.map_values(|x: String| x@) =~= v.use_case_stories@.map_values(
                    |u: crate::article::UseCaseStory| story_obj(u),
                ).take(j as int));
            }
        }
        proof {
            assert(v.use_case_stories@.map_values(
                |u: crate::article::UseCaseStory| story_obj(u),
            ).take(n as int) =~= v.use_case_stories@.map_values(
                |u: crate::article::UseCaseStory| story_obj(u),
            ));
        }
        let mut vv = String::new();
        append_arr(&mut vv, &elems);
        push_field(&mut fields, make_rfield("use_case_stories", vv));
    }
    if let Some(c) = &v.call_to_action {
        push_field(&mut fields, make_sfield("call_to_action", c.as_str()));
    }
    proof {
        assert(fields@.map_values(|x: String| x@) =~= (match v.marketing_hook {
            Some(h) => seq![sfield("marketing_hook"@, h@)],
            None => Seq::<Seq<char>>::empty(),
        }) + opt_piece(
            v.use_case_stories@.len() > 0,
            rfield(
                "use_case_stories"@,
                arr_of(
                    v.use_case_stories@.map_values(|u: crate::article::UseCaseStory| story_obj(u)),
                ),
            ),
        ) + (match v.call_to_action {
            Some(c) => seq![sfield("call_to_action"@, c@)],
            None => Seq::<Seq<char>>::empty(),
        }));
    }
    let mut out = String::new();
    append_obj(&mut out, &fields);
    out
}

/// The variations object.
pub open spec fn variations_fields(v: crate::article::ArticleVariations) -> Seq<Seq<char>> {
    (match v.jupyter {
        Some(j) => seq![rfield("jupyter"@, jupyter_variation_obj(j))],
        None => Seq::empty(),
    }) + (match v.mdbook {
        Some(m) => seq![rfield("mdbook"@, mdbook_variation_obj(m))],
        None => Seq::empty(),
    }) + (match v.vue_site {
        Some(vs) => seq![rfield("vue_site"@, vue_variation_obj(vs))],
        None => Seq::empty(),
    })
}

fn make_variations(v: &crate::article::ArticleVariations) -> (res: String)
    ensures
        res@ == obj_of(variations_fields(*v)),
{
    let mut fields: Vec<String> = Vec::new();
    if let Some(j) = &v.jupyter {
        push_field(&mut fields, make_rfield("jupyter", make_jupyter_variation(j)));
    }
    if let Some(m) = &v.mdbook {
        push_field(&mut fields, make_rfield("mdbook", make_mdbook_variation(m)));
    }
    if let Some(vs) = &v.vue_site {
        push_field(&mut fields, make_rfield("vue_site", make_vue_variation(vs)));
    }
    proof {
        assert(fields@.map_values(|x: String| x@) =~= variations_fields(*v));
    }
    let mut out = String::new();
    append_obj(&mut out, &fields);
    out
}

/// The article value: the simple variant is an object holding only its
/// content; the structured variant spells out every part.
pub open spec fn article_json(a: crate::article::Article) -> Seq<char> {
    match a {
        crate::article::Article::Simple(sa) => obj_of(seq![sfield("content"@, sa.content@)]),
        crate::article::Article::Structured(b) => {
            let st = *b;
            obj_of(
                seq![rfield("introduction"@, obj_of(intro_fields(st.introduction)))] + opt_piece(
                    st.sections@.len() > 0,
                    rfield(
                        "sections"@,
                        arr_of(
                            st.sections@.map_values(
                                |sec: crate::article::Section| obj_of(section_fields(sec)),
                            ),
                        ),
                    ),
                ) + (match st.conclusion {
                    Some(c) => seq![rfield("conclusion"@, obj_of(conclusion_fields(c)))],
                    None => Seq::empty(),
                }) + opt_piece(
                    st.sidebars@.len() > 0,
                    rfield(
                        "sidebars"@,
                        arr_of(
                            st.sidebars@.map_values(
                                |sb: crate::article::Sidebar| sidebar_obj(sb),
                            ),
                        ),
                    ),
                ) + (match st.variations {
                    Some(v) => seq![rfield("variations"@, obj_of(variations_fields(v)))],
                    None => Seq::empty(),
                }),
            )
        },
    }
}

#[verifier::rlimit(100)]
fn make_article(a: &crate::article::Article) -> (res: String)
    ensures
        res@ == article_json(*a),
{
    match a {
        crate::article::Article::Simple(sa) => {
            let mut fields: Vec<String> = Vec::new();
            push_field(&mut fields, make_sfield("content", sa.content.as_str()));
            proof {
                assert(fields@.map_values(|x: String| x@) =~= seq![
                    sfield("content"@, sa.content@),
                ]);
            }
            let mut out = String::new();
            append_obj(&mut out, &fields);
            out
        },
        crate::article::Article::Structured(b) => {
            let st = &**b;
            let mut fields: Vec<String> = Vec::new();
            push_field(&mut fields, make_rfield("introduction", make_intro(&st.introduction)));
            if st.sections.len() > 0 {
                let mut elems: Vec<String> = Vec::new();
                let n = st.sections.len();
                let mut j: usize = 0;
                while j < n
                    invariant
                        n == st.sections@.len(),
                        j <= n,
                        elems@.map_values(|x: String| x@) == st.sections@.map_values(
                            |sec: crate::article::Section| obj_of(section_fields(sec)),
                        ).take(j as int),
                    decreases n - j,
                {
                    push_field(&mut elems, make_section(&st.sections[j]));
                    j = j + 1;
                    proof {
                        assert(elems@.map_values(|x: String| x@) =~= st.sections@.map_values(
                            |sec: crate::article::Section| obj_of(section_fields(sec)),
                        ).take(j as int));
                    }
                }
                proof {
                    assert(st.sections@.map_values(
                        |sec: crate::article::Section| obj_of(section_fields(sec)),
                    ).take(n as int) =~= st.sections@.map_values(
                        |sec: crate::article::Section| obj_of(section_fields(sec)),
                    ));
                }
                let mut v = String::new();
                append_arr(&mut v, &elems);
                push_field(&mut fields, make_rfield("sections", v));
            }
            if let Some(c) = &st.conclusion {
                push_field(&mut fields, make_rfield("conclusion", make_conclusion(c)));
            }
            if st.sidebars.len() > 0 {
                let mut elems: Vec<String> = Vec::new();
                let n = st.sidebars.len();
                let mut j: usize = 0;
                while j < n
                    invariant
                        n == st.sidebars@.len(),
                        j <= n,
                        elems@.map_values(|x: String| x@) == st.sidebars@.map_values(
                            |sb: crate::article::Sidebar| sidebar_obj(sb),
                        ).take(j as int),
                    decreases n - j,
                {
                    push_field(&mut elems, make_sidebar(&st.sidebars[j]));
                    j = j + 1;
                    proof {
                        assert(elems@.map_values(|x: String| x@) =~= st.sidebars@.map_values(
                            |sb: crate::article::Sidebar| sidebar_obj(sb),
                        ).take(j as int));
                    }
                }
                proof {
                    assert(st.sidebars@.map_values(|sb: crate::article::Sidebar| sidebar_obj(sb)).take(
                        n as int,
                    ) =~= st.sidebars@.map_values(|sb: crate::article::Sidebar| sidebar_obj(sb)));
                }
                let mut v = String::new();
                append_arr(&mut v, &elems);
                push_field(&mut fields, make_rfield("sidebars", v));
            }
            if let Some(v) = &st.variations {
                push_field(&mut fields, make_rfield("variations", make_variations(v)));
            }
            proof {
                assert(fields@.map_values(|x: String| x@) =~= seq![
                    rfield("introduction"@, obj_of(intro_fields(st.introduction))),
                ] + opt_piece(
                    st.sections@.len() > 0,
                    rfield(
                        "sections"@,
                        arr_of(
                            st.sections@.map_values(
                                |sec: crate::article::Section| obj_of(section_fields(sec)),
                            ),
                        ),
                    ),
                ) + (match st.conclusion {
                    Some(c) => seq![rfield("conclusion"@, obj_of(conclusion_fields(c)))],
                    None => Seq::<Seq<char>>::empty(),
                }) + opt_piece(
                    st.sidebars@.len() > 0,
                    rfield(
                        "sidebars"@,
                        arr_of(
                            st.sidebars@.map_values(
                                |sb: crate::article::Sidebar| sidebar_obj(sb),
                            ),
                        ),
                    ),
                ) + (match st.variations {
                    Some(v) => seq![rfield("variations"@, obj_of(variations_fields(v)))],
                    None => Seq::<Seq<char>>::empty(),
                }));
            }
            let mut out = String::new();
            append_obj(&mut out, &fields);
            out
        },
    }
}


/// The metadata object.
pub open spec fn metadata_fields(m: crate::schema::Metadata) -> Seq<Seq<char>> {
    seq![sfield("schema_version"@, m.schema_version@)] + (match m.author {
        Some(a) => seq![sfield("author"@, a@)],
        None => Seq::empty(),
    }) + (match m.last_updated {
        Some(lu) => seq![sfield("last_updated"@, lu@)],
        None => Seq::empty(),
    }) + opt_piece(m.tags@.len() > 0, rfield("tags"@, sarr(m.tags@.map_values(|x: String| x@))))
}

fn make_metadata(m: &crate::schema::Metadata) -> (res: String)
    ensures
        res@ == obj_of(metadata_fields(*m)),
{
    let mut fields: Vec<String> = Vec::new();
    push_field(&mut fields, make_sfield("schema_version", m.schema_version.as_str()));
    if let Some(a) = &m.author {
        push_field(&mut fields, make_sfield("author", a.as_str()));
    }
    if let Some(lu) = &m.last_updated {
        push_field(&mut fields, make_sfield("last_updated", lu.as_str()));
    }
    if m.tags.len() > 0 {
        push_field(&mut fields, make_rfield("tags", make_sarr(&m.tags)));
    }
    proof {
        assert(fields@.map_values(|x: String| x@) =~= metadata_fields(*m));
    }
    let mut out = String::new();
    append_obj(&mut out, &fields);
    out
}

/// One optional top-level field: a comma, a newline, the indented name,
/// and the rendered value.
pub open spec fn top_field(name: Seq<char>, v: Seq<char>) -> Seq<char> {
    ",\n  \""@ + name + "\": "@ + v
}

/// The code-references value.
pub open spec fn code_refs_obj(cr: crate::schema::CodeReferences) -> Seq<char> {
    obj_of(
        seq![sfield("rust"@, cr.rust@)] + opt_piece(
            cr.python@.len() > 0,
            sfield("python"@, cr.python@),
        ) + opt_piece(cr.nodejs@.len() > 0, sfield("nodejs"@, cr.nodejs@)),
    )
}

/// The whole schema document: the three required fields, then every
/// present optional field in declaration order, one per line.
pub open spec fn schema_json(s: Schema) -> Seq<char> {
    "{\n  \"topic\": "@ + jstr(s.topic@) + ",\n  \"title\": "@ + jstr(s.title@)
        + ",\n  \"description\": "@ + jstr(s.description@) + (match s.mathematical_definition {
        Some(m) => top_field("mathematical_definition"@, jstr(m@)),
        None => Seq::empty(),
    }) + (match s.code_refs {
        Some(cr) => top_field("code_refs"@, code_refs_obj(cr)),
        None => Seq::empty(),
    }) + (if s.examples@.len() > 0 {
        top_field("examples"@, examples_arr(s.examples@))
    } else {
        Seq::empty()
    }) + (match s.article {
        Some(a) => top_field("article"@, article_json(a)),
        None => Seq::empty(),
    }) + (if s.use_cases@.len() > 0 {
        top_field("use_cases"@, sarr(s.use_cases@.map_values(|x: String| x@)))
    } else {
        Seq::empty()
    }) + (if s.related_topics@.len() > 0 {
        top_field("related_topics"@, sarr(s.related_topics@.map_values(|x: String| x@)))
    } else {
        Seq::empty()
    }) + (match s.performance {
        Some(p) => top_field("performance"@, obj_of(performance_fields(p))),
        None => Seq::empty(),
    }) + (match s.interactive_playground {
        Some(p) => top_field("interactive_playground"@, obj_of(playground_fields(p))),
        None => Seq::empty(),
    }) + (if hints_fields(s.outputs).len() > 0 {
        top_field("outputs"@, obj_of(hints_fields(s.outputs)))
    } else {
        Seq::empty()
    }) + (match s.metadata {
        Some(m) => top_field("metadata"@, obj_of(metadata_fields(m))),
        None => Seq::empty(),
    }) + (match s.seo {
        Some(seo) => top_field("seo"@, obj_of(seo_fields(seo))),
        None => Seq::empty(),
    }) + "\n}"@
}

fn append_top_field(out: &mut String, name: &str, v: String)
    ensures
        final(out)@ == old(out)@ + top_field(name@, v@),
{
    out.append(",\n  \"");
    out.append(name);
    out.append("\": ");
    out.append(v.as_str());
    proof {
        assert(out@ =~= old(out)@ + top_field(name@, v@));
    }
}

fn make_code_refs(cr: &crate::schema::CodeReferences) -> (res: String)
    ensures
        res@ == code_refs_obj(*cr),
{
    let mut fields: Vec<String> = Vec::new();
    push_field(&mut fields, make_sfield("rust", cr.rust.as_str()));
    if cr.python.as_str().unicode_len() > 0 {
        push_field(&mut fields, make_sfield("python", cr.python.as_str()));
    }
    if cr.nodejs.as_str().unicode_len() > 0 {
        push_field(&mut fields, make_sfield("nodejs", cr.nodejs.as_str()));
    }
    proof {
        assert(fields@.map_values(|x: String| x@) =~= seq![sfield("rust"@, cr.rust@)] + opt_piece(
            cr.python@.len() > 0,
            sfield("python"@, cr.python@),
        ) + opt_piece(cr.nodejs@.len() > 0, sfield("nodejs"@, cr.nodejs@)));
    }
    let mut out = String::new();
    append_obj(&mut out, &fields);
    out
}

/// Schema-dump generator.
#[derive(Debug, Clone, PartialEq)]
pub struct JsonGenerator {}

impl JsonGenerator {
    /// Creates a new schema-dump generator.
    pub fn new() -> (r: Self)
        ensures
            true,
    {
        JsonGenerator {  }
    }

    /// Renders the schema document.
    #[verifier::rlimit(100)]
    fn generate_schema_json(&self, s: &Schema) -> (r: String)
        ensures
            r@ == schema_json(*s),
    {
        let mut out = String::new();
        out.append("{\n  \"topic\": ");
        crate::json::append_json_string(&mut out, s.topic.as_str());
        out.append(",\n  \"title\": ");
        crate::json::append_json_string(&mut out, s.title.as_str());
        out.append(",\n  \"description\": ");
        crate::json::append_json_string(&mut out, s.description.as_str());
        let ghost p0 = out@;
        proof {
            assert(p0 =~= "{\n  \"topic\": "@ + jstr(s.topic@) + ",\n  \"title\": "@ + jstr(
                s.title@,
            ) + ",\n  \"description\": "@ + jstr(s.description@));
        }
        if let Some(m) = &s.mathematical_definition {
            let mut v = String::new();
            crate::json::append_json_string(&mut v, m.as_str());
            append_top_field(&mut out, "mathematical_definition", v);
        }
        if let Some(cr) = &s.code_refs {
            append_top_field(&mut out, "code_refs", make_code_refs(cr));
        }
        proof {
            assert(out@ =~= p0 + (match s.mathematical_definition {
                Some(m) => top_field("mathematical_definition"@, jstr(m@)),
                None => Seq::<char>::empty(),
            }) + (match s.code_refs {
                Some(cr) => top_field("code_refs"@, code_refs_obj(cr)),
                None => Seq::<char>::empty(),
            }));
        }
        let ghost p1 = out@;
        if s.examples.len() > 0 {
            append_top_field(&mut out, "examples", make_examples(&s.examples));
        }
        if let Some(a) = &s.article {
            append_top_field(&mut out, "article", make_article(a));
        }
        if s.use_cases.len() > 0 {
            append_top_field(&mut out, "use_cases", make_sarr(&s.use_cases));
        }
        proof {
            assert(out@ =~= p1 + (if s.examples@.len() > 0 {
                top_field("examples"@, examples_arr(s.examples@))
            } else {
                Seq::<char>::empty()
            }) + (match s.article {
                Some(a) => top_field("article"@, article_json(a)),
                None => Seq::<char>::empty(),
            }) + (if s.use_cases@.len() > 0 {
                top_field("use_cases"@, sarr(s.use_cases@.map_values(|x: String| x@)))
            } else {
                Seq::<char>::empty()
            }));
        }
        let ghost p2 = out@;
        if s.related_topics.len() > 0 {
            append_top_field(&mut out, "related_topics", make_sarr(&s.related_topics));
        }
        if let Some(p) = &s.performance {
            append_top_field(&mut out, "performance", make_performance(p));
        }
        if let Some(p) = &s.interactive_playground {
            append_top_field(&mut out, "interactive_playground", make_playground(p));
        }
        proof {
            assert(out@ =~= p2 + (if s.related_topics@.len() > 0 {
                top_field("related_topics"@, sarr(s.related_topics@.map_values(|x: String| x@)))
            } else {
                Seq::<char>::empty()
            }) + (match s.performance {
                Some(p) => top_field("performance"@, obj_of(performance_fields(p))),
                None => Seq::<char>::empty(),
            }) + (match s.interactive_playground {
                Some(p) => top_field("interactive_playground"@, obj_of(playground_fields(p))),
                None => Seq::<char>::empty(),
            }));
        }
        let ghost p3 = out@;
        if !self.hints_empty(&s.outputs) {
            append_top_field(&mut out, "outputs", make_hints(&s.outputs));
        }
        proof {
            assert(out@ =~= p3 + (if hints_fields(s.outputs).len() > 0 {
                top_field("outputs"@, obj_of(hints_fields(s.outputs)))
            } else {
                Seq::<char>::empty()
            }));
        }
        let ghost p4 = out@;
        if let Some(m) = &s.metadata {
            append_top_field(&mut out, "metadata", make_metadata(m));
        }
        if let Some(seo) = &s.seo {
            append_top_field(&mut out, "seo", make_seo(seo));
        }
        out.append("\n}");
        proof {
            assert(out@ =~= p4 + (match s.metadata {
                Some(m) => top_field("metadata"@, obj_of(metadata_fields(m))),
                None => Seq::<char>::empty(),
            }) + (match s.seo {
                Some(seo) => top_field("seo"@, obj_of(seo_fields(seo))),
                None => Seq::<char>::empty(),
            }) + "\n}"@);
            assert(out@ =~= schema_json(*s));
        }
        out
    }

    /// Whether the hint container renders as an empty object, and is then
    /// left out of the document.
    fn hints_empty(&self, h: &OutputHints) -> (r: bool)
        ensures
            r == (hints_fields(*h).len() == 0),
    {
        h.is_default()
    }
}

impl Default for JsonGenerator {
    /// The stock schema-dump generator.
    fn default() -> (r: Self)
        ensures
            true,
    {
        JsonGenerator {  }
    }
}

impl OutputGenerator for JsonGenerator {
    open spec fn spec_name(&self) -> Seq<char> {
        "json"@
    }

    open spec fn spec_extension(&self) -> Seq<char> {
        "json"@
    }

    open spec fn spec_generate(&self, schema: Schema) -> Seq<char> {
        schema_json(schema)
    }

    /// Valid output is non-empty and parses as JSON.
    open spec fn spec_validates(&self, output: Seq<char>) -> bool {
        output.len() > 0 && json_wf(output)
    }

    fn name(&self) -> (r: &str) {
        "json"
    }

    fn file_extension(&self) -> (r: &str) {
        "json"
    }

    fn generate(&self, schema: &Schema) -> (r: Result<String, KbError>) {
        Ok(self.generate_schema_json(schema))
    }

    fn validate_output(&self, output: &str) -> (r: Result<(), KbError>) {
        if output.unicode_len() == 0 {
            return Err(
                KbError::OutputValidationError {
                    generator: "json".to_owned(),
                    message: "Output is empty".to_owned(),
                },
            );
        }
        if !crate::json::is_valid_json(output) {
            return Err(
                KbError::OutputValidationError {
                    generator: "json".to_owned(),
                    message: "Invalid JSON".to_owned(),
                },
            );
        }
        Ok(())
    }
}

/// Every schema renders to a non-empty document.
#[verifier::rlimit(100)]
pub proof fn lemma_json_output_nonempty(g: JsonGenerator, s: Schema)
    ensures
        g.spec_generate(s).len() > 0,
{
    reveal_strlit("{\n  \"topic\": ");
}

/// The structural check rejects empty input.
pub proof fn lemma_json_rejects_empty(g: JsonGenerator)
    ensures
        !g.spec_validates(Seq::empty()),
{
}

} // verus!
