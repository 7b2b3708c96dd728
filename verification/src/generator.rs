//! The output-generator contract: every format renderer implements the same
//! four operations (name, file extension, generate, validate-output), and the
//! registry drives any set of renderers against one schema.

use vstd::prelude::*;
use crate::error::KbError;
use crate::schema::Schema;
use crate::text::{replaced_string, spec_replaced, str_eq};

verus! {

/// The default output filename: the topic with dots replaced by hyphens,
/// then a dot and the format's extension.
pub open spec fn output_filename(topic: Seq<char>, ext: Seq<char>) -> Seq<char> {
    spec_replaced(topic, '.', '-') + "."@ + ext
}

/// Whether the hint block named `name` is present in the schema's outputs.
pub open spec fn spec_has_hints(name: Seq<char>, s: Schema) -> bool {
    if name == "jupyter"@ {
        s.outputs.jupyter is Some
    } else if name == "mdbook"@ {
        s.outputs.mdbook is Some
    } else if name == "vue"@ {
        s.outputs.vue_site is Some
    } else if name == "api-docs"@ {
        s.outputs.api_docs is Some
    } else if name == "llm-rag"@ {
        s.outputs.llm_rag is Some
    } else if name == "colab"@ {
        s.outputs.colab is Some
    } else if name == "latex"@ {
        s.outputs.latex is Some
    } else {
        false
    }
}

/// The polymorphic output contract: given a validated schema, produce a
/// string in this format, and check such a string structurally. `generate`
/// is pinned to the implementation's own `spec_generate`, so rendering is
/// deterministic for every implementation: two calls on one schema agree.
pub trait OutputGenerator {
    /// The stable identifier of this generator.
    spec fn spec_name(&self) -> Seq<char>;

    /// The file extension this generator writes.
    spec fn spec_extension(&self) -> Seq<char>;

    /// The exact output text for a schema.
    spec fn spec_generate(&self, schema: Schema) -> Seq<char>;

    /// The structural check a generated artifact must pass.
    spec fn spec_validates(&self, output: Seq<char>) -> bool;

    /// Name of this generator (e.g. "jupyter", "mdbook").
    fn name(&self) -> (r: &str)
        ensures
            r@ == self.spec_name(),
    ;

    /// File extension for generated files (e.g. "ipynb", "md").
    fn file_extension(&self) -> (r: &str)
        ensures
            r@ == self.spec_extension(),
    ;

    /// Generates output from a schema; deterministic in the schema and the
    /// generator's configuration.
    fn generate(&self, schema: &Schema) -> (r: Result<String, KbError>)
        ensures
            r matches Ok(out) && out@ == self.spec_generate(*schema),
    ;

    /// Checks that generated output is structurally valid for its format.
    fn validate_output(&self, output: &str) -> (r: Result<(), KbError>)
        ensures
            r is Ok <==> self.spec_validates(output@),
    ;

    /// The default output filename for a schema, like
    /// `calculus-derivative.ipynb` for topic `calculus.derivative`.
    fn get_output_filename(&self, schema: &Schema) -> (r: String)
        ensures
            r@ == output_filename(schema.topic@, self.spec_extension()),
    {
        let mut out = replaced_string(schema.topic.as_str(), '.', '-');
        out.append(".");
        out.append(self.file_extension());
        proof {
            assert(out@ =~= output_filename(schema.topic@, self.spec_extension()));
        }
        out
    }

    /// Whether the schema carries a hint block for this generator.
    fn has_output_hints(&self, schema: &Schema) -> (r: bool)
        ensures
            r == spec_has_hints(self.spec_name(), *schema),
    {
        let n = self.name();
        if str_eq(n, "jupyter") {
            schema.outputs.jupyter.is_some()
        } else if str_eq(n, "mdbook") {
            schema.outputs.mdbook.is_some()
        } else if str_eq(n, "vue") {
            schema.outputs.vue_site.is_some()
        } else if str_eq(n, "api-docs") {
            schema.outputs.api_docs.is_some()
        } else if str_eq(n, "llm-rag") {
            schema.outputs.llm_rag.is_some()
        } else if str_eq(n, "colab") {
            schema.outputs.colab.is_some()
        } else if str_eq(n, "latex") {
            schema.outputs.latex.is_some()
        } else {
            false
        }
    }
}

/// Registry of output generators, in registration order.
pub struct GeneratorRegistry {
    /// The registered generators.
    pub generators: Vec<Box<dyn OutputGenerator>>,
}

impl GeneratorRegistry {
    /// Creates a new empty registry.
    pub fn new() -> (r: Self)
        ensures
            r.generators@.len() == 0,
    {
        GeneratorRegistry { generators: Vec::new() }
    }

    /// Registers a new generator at the end of the order.
    pub fn register(&mut self, generator: Box<dyn OutputGenerator>)
        ensures
            final(self).generators@ == old(self).generators@.push(generator),
    {
        self.generators.push(generator);
    }

    /// Looks a generator up by name.
    pub fn get(&self, name: &str) -> (r: Option<&Box<dyn OutputGenerator>>)
        ensures
            match r {
                Some(g) => (**g).spec_name() == name@,
                None => forall|k: int|
                    0 <= k < self.generators@.len() ==> (*#[trigger] self.generators@[k]).spec_name()
                        != name@,
            },
    {
        let n = self.generators.len();
        let mut i: usize = 0;
        while i < n
            invariant
                n == self.generators@.len(),
                i <= n,
                forall|k: int|
                    0 <= k < i ==> (*#[trigger] self.generators@[k]).spec_name() != name@,
            decreases n - i,
        {
            let g = &self.generators[i];
            if str_eq(g.name(), name) {
                return Some(g);
            }
            i = i + 1;
        }
        None
    }

    /// All registered generators, in order.
    pub fn all(&self) -> (r: &Vec<Box<dyn OutputGenerator>>)
        ensures
            r == &self.generators,
    {
        &self.generators
    }

    /// Runs every registered generator against one schema and returns one
    /// (filename, content) pair per generator, in registration order.
    /// Writing the files, and the structural check before each write, is the
    /// caller's part.
    pub fn generate_all(&self, schema: &Schema) -> (r: Result<Vec<(String, String)>, KbError>)
        ensures
            r matches Ok(outs) && outs@.len() == self.generators@.len(),
            r matches Ok(outs) ==> forall|k: int|
                0 <= k < outs@.len() ==> (#[trigger] outs@[k]).0@ == output_filename(
                    schema.topic@,
                    (*self.generators@[k]).spec_extension(),
                ) && outs@[k].1@ == (*self.generators@[k]).spec_generate(*schema),
    {
        let n = self.generators.len();
        let mut outs: Vec<(String, String)> = Vec::new();
        let mut i: usize = 0;
        while i < n
            invariant
                n == self.generators@.len(),
                i <= n,
                outs@.len() == i,
                forall|k: int|
                    0 <= k < i ==> (#[trigger] outs@[k]).0@ == output_filename(
                        schema.topic@,
                        (*self.generators@[k]).spec_extension(),
                    ) && outs@[k].1@ == (*self.generators@[k]).spec_generate(*schema),
            decreases n - i,
        {
            let g = &self.generators[i];
            let filename = g.get_output_filename(schema);
            let content = match g.generate(schema) {
                Ok(c) => c,
                Err(e) => {
                    return Err(e);
                },
            };
            outs.push((filename, content));
            i = i + 1;
        }
        Ok(outs)
    }
}

impl Default for GeneratorRegistry {
    /// The empty registry.
    fn default() -> (r: Self)
        ensures
            r.generators@.len() == 0,
    {
        GeneratorRegistry::new()
    }
}


/// Round-trip determinism: `generate` is pinned to `spec_generate`, a
/// function of the schema and the generator alone, so any two calls of one
/// generator on one schema yield identical output.
pub proof fn lemma_generate_deterministic<G: OutputGenerator>(
    g: &G,
    s: Schema,
    out1: Seq<char>,
    out2: Seq<char>,
)
    requires
        out1 == g.spec_generate(s),
        out2 == g.spec_generate(s),
    ensures
        out1 == out2,
{
}

} // verus!
