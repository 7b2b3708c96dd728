//! The typeset-document renderer: one document per schema, with an abstract
//! from the description, optional mathematical definition and introduction,
//! the article's sections, all examples as code listings, and an optional
//! conclusion, between matching document markers.

use vstd::prelude::*;
use crate::error::KbError;
use crate::generator::OutputGenerator;
use crate::schema::{Example, Schema};
use crate::text::{spec_contains, str_contains};

verus! {

/// The fixed preamble: document class, packages, and listing setup.
pub open spec fn latex_preamble() -> Seq<char> {
    "\\documentclass[11pt,a4paper]{article}\n\\usepackage{amsmath}\n\\usepackage{amssymb}\n\\usepackage{listings}\n\\usepackage{xcolor}\n\\usepackage{hyperref}\n\n\\lstset{\n    language=Python,\n    basicstyle=\\ttfamily\\small,\n    keywordstyle=\\color{blue},\n    commentstyle=\\color{gray},\n    stringstyle=\\color{red},\n    showstringspaces=false,\n    breaklines=true,\n    frame=single,\n    numbers=left,\n    numberstyle=\\tiny\\color{gray}\n}\n\n"@
}

/// The introduction text of the document: a structured article's hook, or
/// the whole content of a simple article.
pub open spec fn latex_intro_text(a: Option<crate::article::Article>) -> Option<Seq<char>> {
    match a {
        Some(a) => match a {
            crate::article::Article::Simple(sa) => Some(sa.content@),
            crate::article::Article::Structured(b) => Some((*b).introduction.hook@),
        },
        None => None,
    }
}

/// The sections of the document; only a structured article has any.
pub open spec fn latex_sections_of(a: Option<crate::article::Article>) -> Seq<
    crate::article::Section,
> {
    match a {
        Some(a) => match a {
            crate::article::Article::Simple(_) => Seq::empty(),
            crate::article::Article::Structured(b) => (*b).sections@,
        },
        None => Seq::empty(),
    }
}

/// The conclusion summary, when the structured article has one.
pub open spec fn latex_conclusion_of(a: Option<crate::article::Article>) -> Option<Seq<char>> {
    match a {
        Some(a) => match a {
            crate::article::Article::Simple(_) => None,
            crate::article::Article::Structured(b) => match (*b).conclusion {
                Some(c) => Some(c.summary@),
                None => None,
            },
        },
        None => None,
    }
}

/// The rendered sections.
pub open spec fn latex_sections(secs: Seq<crate::article::Section>, n: int) -> Seq<char>
    decreases n,
{
    if n <= 0 {
        Seq::empty()
    } else {
        latex_sections(secs, n - 1) + "\n\\section{ "@ + secs[n - 1].title@ + " }\n\n"@ + secs[n
            - 1].content@ + "\n"@
    }
}

/// One rendered example: subsection, explanation, code listing, optional
/// output.
pub open spec fn latex_example(e: Example) -> Seq<char> {
    "\n\\subsection{ "@ + e.title@ + " }\n\n"@ + e.explanation@ + "\n\n\\begin{lstlisting}\n"@
        + e.code.python@ + "\n\\end{lstlisting}\n\n"@ + (match e.expected_output {
        Some(o) => if o@.len() > 0 {
            "\n\\textbf{Output:}\n\n\\begin{verbatim}\n"@ + o@ + "\n\\end{verbatim}\n"@
        } else {
            Seq::empty()
        },
        None => Seq::empty(),
    }) + "\n\n"@
}

/// The rendered example list.
pub open spec fn latex_examples(es: Seq<Example>, n: int) -> Seq<char>
    decreases n,
{
    if n <= 0 {
        Seq::empty()
    } else {
        latex_examples(es, n - 1) + latex_example(es[n - 1])
    }
}

/// The whole typeset document for a schema.
pub open spec fn latex_output(s: Schema) -> Seq<char> {
    latex_preamble() + "\\title{ "@ + s.title@
        + " }\n\\author{MathHook CAS}\n\\date{\\today}\n\n\\begin{document}\n\n\\maketitle\n\n\\begin{abstract}\n"@
        + s.description@ + "\n\\end{abstract}\n\n"@ + (match s.mathematical_definition {
        Some(m) => if m@.len() > 0 {
            "\n\\section{Mathematical Definition}\n\n\\begin{equation}\n"@ + m@
                + "\n\\end{equation}\n"@
        } else {
            Seq::empty()
        },
        None => Seq::empty(),
    }) + "\n\n"@ + (match latex_intro_text(s.article) {
        Some(i) => if i.len() > 0 {
            "\n\\section{Introduction}\n\n"@ + i + "\n"@
        } else {
            Seq::empty()
        },
        None => Seq::empty(),
    }) + "\n\n"@ + latex_sections(latex_sections_of(s.article), latex_sections_of(s.article).len() as int)
        + "\n\n\\section{Examples}\n\n"@ + latex_examples(s.examples@, s.examples@.len() as int)
        + "\n\n"@ + (match latex_conclusion_of(s.article) {
        Some(c) => if c.len() > 0 {
            "\n\\section{Conclusion}\n\n"@ + c + "\n"@
        } else {
            Seq::empty()
        },
        None => Seq::empty(),
    }) + "\n\n\\end{document}\n"@
}

/// Typeset-document generator.
#[derive(Debug, Clone, PartialEq)]
pub struct LatexGenerator {}

impl LatexGenerator {
    /// Creates a new typeset-document generator; never fails.
    pub fn new() -> (r: Result<Self, KbError>)
        ensures
            r is Ok,
    {
        Ok(LatexGenerator {  })
    }

    /// Renders the document for a schema.
    #[verifier::rlimit(100)]
    fn generate_latex(&self, schema: &Schema) -> (r: String)
        ensures
            r@ == latex_output(*schema),
    {
        let mut out = String::new();
        out.append(
            "\\documentclass[11pt,a4paper]{article}\n\\usepackage{amsmath}\n\\usepackage{amssymb}\n\\usepackage{listings}\n\\usepackage{xcolor}\n\\usepackage{hyperref}\n\n\\lstset{\n    language=Python,\n    basicstyle=\\ttfamily\\small,\n    keywordstyle=\\color{blue},\n    commentstyle=\\color{gray},\n    stringstyle=\\color{red},\n    showstringspaces=false,\n    breaklines=true,\n    frame=single,\n    numbers=left,\n    numberstyle=\\tiny\\color{gray}\n}\n\n",
        );
        out.append("\\title{ ");
        out.append(schema.title.as_str());
        out.append(" }\n\\author{MathHook CAS}\n\\date{\\today}\n\n\\begin{document}\n\n\\maketitle\n\n\\begin{abstract}\n");
        out.append(schema.description.as_str());
        out.append("\n\\end{abstract}\n\n");
        let ghost p1 = out@;
        if let Some(m) = &schema.mathematical_definition {
            if m.as_str().unicode_len() > 0 {
                out.append("\n\\section{Mathematical Definition}\n\n\\begin{equation}\n");
                out.append(m.as_str());
                out.append("\n\\end{equation}\n");
            }
        }
        out.append("\n\n");
        proof {
            assert(out@ =~= p1 + (match schema.mathematical_definition {
                Some(m) => if m@.len() > 0 {
                    "\n\\section{Mathematical Definition}\n\n\\begin{equation}\n"@ + m@
                        + "\n\\end{equation}\n"@
                } else {
                    Seq::empty()
                },
                None => Seq::empty(),
            }) + "\n\n"@);
        }
        let ghost p2 = out@;
        match &schema.article {
            Some(article) => {
                let intro: &String = match article {
                    crate::article::Article::Simple(sa) => &sa.content,
                    crate::article::Article::Structured(b) => &b.introduction.hook,
                };
                if intro.as_str().unicode_len() > 0 {
                    out.append("\n\\section{Introduction}\n\n");
                    out.append(intro.as_str());
                    out.append("\n");
                }
                proof {
                    assert(latex_intro_text(schema.article) == Some(intro@));
                }
            },
            None => {},
        }
        out.append("\n\n");
        proof {
            assert(out@ =~= p2 + (match latex_intro_text(schema.article) {
                Some(i) => if i.len() > 0 {
                    "\n\\section{Introduction}\n\n"@ + i + "\n"@
                } else {
                    Seq::empty()
                },
                None => Seq::empty(),
            }) + "\n\n"@);
        }
        let ghost p3 = out@;
        match &schema.article {
            Some(article) => {
                match article {
                    crate::article::Article::Simple(_) => {},
                    crate::article::Article::Structured(b) => {
                        let secs = &(**b).sections;
                        let n = secs.len();
                        let mut i: usize = 0;
                        while i < n
                            invariant
                                n == secs@.len(),
                                i <= n,
                                out@ == p3 + latex_sections(secs@, i as int),
                            decreases n - i,
                        {
                            out.append("\n\\section{ ");
                            out.append(secs[i].title.as_str());
                            out.append(" }\n\n");
                            out.append(secs[i].content.as_str());
                            out.append("\n");
                            i = i + 1;
                            proof {
                                assert(out@ =~= p3 + latex_sections(secs@, i as int));
                            }
                        }
                    },
                }
            },
            None => {},
        }
        proof {
            assert(out@ =~= p3 + latex_sections(
                latex_sections_of(schema.article),
                latex_sections_of(schema.article).len() as int,
            ));
        }
        out.append("\n\n\\section{Examples}\n\n");
        let ghost p4 = out@;
        let n = schema.examples.len();
        let mut i: usize = 0;
        while i < n
            invariant
                n == schema.examples@.len(),
                i <= n,
                out@ == p4 + latex_examples(schema.examples@, i as int),
            decreases n - i,
        {
            self.append_example(&mut out, &schema.examples[i]);
            i = i + 1;
            proof {
                assert(out@ =~= p4 + latex_examples(schema.examples@, i as int));
            }
        }
        out.append("\n\n");
        let ghost p5 = out@;
        match &schema.article {
            Some(article) => {
                match article {
                    crate::article::Article::Simple(_) => {},
                    crate::article::Article::Structured(b) => {
                        if let Some(conclusion) = &(**b).conclusion {
                            if conclusion.summary.as_str().unicode_len() > 0 {
                                out.append("\n\\section{Conclusion}\n\n");
                                out.append(conclusion.summary.as_str());
                                out.append("\n");
                            }
                        }
                    },
                }
            },
            None => {},
        }
        proof {
            assert(out@ =~= p5 + (match latex_conclusion_of(schema.article) {
                Some(c) => if c.len() > 0 {
                    "\n\\section{Conclusion}\n\n"@ + c + "\n"@
                } else {
                    Seq::empty()
                },
                None => Seq::empty(),
            }));
        }
        out.append("\n\n\\end{document}\n");
        proof {
            assert(out@ =~= latex_output(*schema));
        }
        out
    }

    fn append_example(&self, out: &mut String, e: &Example)
        ensures
            final(out)@ == old(out)@ + latex_example(*e),
    {
        out.append("\n\\subsection{ ");
        out.append(e.title.as_str());
        out.append(" }\n\n");
        out.append(e.explanation.as_str());
        out.append("\n\n\\begin{lstlisting}\n");
        out.append(e.code.python.as_str());
        out.append("\n\\end{lstlisting}\n\n");
        if let Some(o) = &e.expected_output {
            if o.as_str().unicode_len() > 0 {
                out.append("\n\\textbf{Output:}\n\n\\begin{verbatim}\n");
                out.append(o.as_str());
                out.append("\n\\end{verbatim}\n");
            }
        }
        out.append("\n\n");
        proof {
            assert(out@ =~= old(out)@ + latex_example(*e));
        }
    }
}

impl Default for LatexGenerator {
    /// The stock typeset-document generator.
    fn default() -> (r: Self)
        ensures
            true,
    {
        LatexGenerator {  }
    }
}

impl OutputGenerator for LatexGenerator {
    open spec fn spec_name(&self) -> Seq<char> {
        "latex"@
    }

    open spec fn spec_extension(&self) -> Seq<char> {
        "tex"@
    }

    open spec fn spec_generate(&self, schema: Schema) -> Seq<char> {
        latex_output(schema)
    }

    /// Valid output is non-empty, declares a document class, and carries
    /// matching document begin and end markers.
    open spec fn spec_validates(&self, output: Seq<char>) -> bool {
        output.len() > 0 && spec_contains(output, "\\documentclass"@) && spec_contains(
            output,
            "\\begin{document}"@,
        ) && spec_contains(output, "\\end{document}"@)
    }

    fn name(&self) -> (r: &str) {
        "latex"
    }

    fn file_extension(&self) -> (r: &str) {
        "tex"
    }

    fn generate(&self, schema: &Schema) -> (r: Result<String, KbError>) {
        Ok(self.generate_latex(schema))
    }

    fn validate_output(&self, output: &str) -> (r: Result<(), KbError>) {
        if output.unicode_len() == 0 {
            return Err(
                KbError::OutputValidationError {
                    generator: "latex".to_owned(),
                    message: "Output is empty".to_owned(),
                },
            );
        }
        if !str_contains(output, "\\documentclass") {
            return Err(
                KbError::OutputValidationError {
                    generator: "latex".to_owned(),
                    message: "Missing \\documentclass directive".to_owned(),
                },
            );
        }
        if !str_contains(output, "\\begin{document}") || !str_contains(
            output,
            "\\end{document}",
        ) {
            return Err(
                KbError::OutputValidationError {
                    generator: "latex".to_owned(),
                    message: "Missing document environment".to_owned(),
                },
            );
        }
        Ok(())
    }
}


/// A schema without an article still renders: the output is never empty.
pub proof fn lemma_latex_fallback_nonempty(g: LatexGenerator, s: Schema)
    requires
        s.article is None,
    ensures
        g.spec_generate(s).len() > 0,
{
    reveal_strlit(
        "\\documentclass[11pt,a4paper]{article}\n\\usepackage{amsmath}\n\\usepackage{amssymb}\n\\usepackage{listings}\n\\usepackage{xcolor}\n\\usepackage{hyperref}\n\n\\lstset{\n    language=Python,\n    basicstyle=\\ttfamily\\small,\n    keywordstyle=\\color{blue},\n    commentstyle=\\color{gray},\n    stringstyle=\\color{red},\n    showstringspaces=false,\n    breaklines=true,\n    frame=single,\n    numbers=left,\n    numberstyle=\\tiny\\color{gray}\n}\n\n",
    );
}

/// The structural check rejects empty input.
pub proof fn lemma_latex_rejects_empty(g: LatexGenerator)
    ensures
        !g.spec_validates(Seq::empty()),
{
}

} // verus!
