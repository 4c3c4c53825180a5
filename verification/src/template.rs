use crate::env::{as_map, distinct_keys, with_values, EnvMap};
use crate::error::{RenderError, RenderStage};
use crate::text::texts;
use vstd::prelude::*;
use vstd::string::StringExecFns;

verus! {

/// `tera::Tera`, the template engine.
#[verifier::external_type_specification]
#[verifier::external_body]
pub struct ExTera(tera::Tera);

/// `tera::Context`, the variables that a template sees.
#[verifier::external_type_specification]
#[verifier::external_body]
pub struct ExContext(tera::Context);

/// `tera::Error`.
#[verifier::external_type_specification]
#[verifier::external_body]
pub struct ExTeraError(tera::Error);

/// `serde_json::Value`.
#[verifier::external_type_specification]
#[verifier::external_body]
pub struct ExJsonValue(serde_json::Value);

/// The names of the templates that an engine holds.
pub uninterp spec fn template_names(engine: tera::Tera) -> Set<Seq<char>>;

/// The endings of template names for which an engine escapes what it fills
/// in; an engine with none escapes nothing.
pub uninterp spec fn escaped_suffixes(engine: tera::Tera) -> Seq<Seq<char>>;

/// The variables that a context binds, each with its value.
pub uninterp spec fn bindings(context: tera::Context) -> Map<Seq<char>, serde_json::Value>;

/// What `Context::from_serialize` makes of global variables: the bindings
/// of the context that it gives, or nothing where it gives none, which is
/// where the variables do not serialize to a JSON object.
pub uninterp spec fn context_of(globals: serde_yaml::Value) -> Option<
    Map<Seq<char>, serde_json::Value>,
>;

/// The value that `Context::insert` binds a name to when it is given a
/// mapping from strings to strings: the JSON object of that mapping.
pub uninterp spec fn bound_strings(map: Map<Seq<char>, Seq<char>>) -> serde_json::Value;

/// `Tera::default` makes an engine with its built-in filters, tests and
/// functions and with an empty map of templates.
pub assume_specification[ <tera::Tera as Default>::default ]() -> (engine: tera::Tera)
    ensures
        template_names(engine) == Set::<Seq<char>>::empty(),
;

/// `Tera::autoescape_on` puts `suffixes` in the place of the endings for
/// which output is escaped, and touches nothing else of the engine.
pub assume_specification[ tera::Tera::autoescape_on ](
    engine: &mut tera::Tera,
    suffixes: Vec<&'static str>,
)
    ensures
        escaped_suffixes(*final(engine)) == suffixes@.map_values(|s: &'static str| s@),
        template_names(*final(engine)) == template_names(*old(engine)),
;

/// `Tera::clone` copies an engine field by field: the copy holds the same
/// templates and escapes for the same endings.
pub assume_specification[ <tera::Tera as Clone>::clone ](engine: &tera::Tera) -> (copy: tera::Tera)
    ensures
        template_names(copy) == template_names(*engine),
        escaped_suffixes(copy) == escaped_suffixes(*engine),
;

/// `Tera::add_raw_template` parses `content` and keeps it under `name`, or
/// says why it cannot; nothing is claimed of which, as the parser also
/// looks at the stack that is left. On success the engine holds the
/// template under `name`. On failure it holds what it held, and the new
/// template too where that was parsed but does not fit the others. The
/// endings for which output is escaped stay.
pub assume_specification[ tera::Tera::add_raw_template ](
    engine: &mut tera::Tera,
    name: &str,
    content: &str,
) -> (added: Result<(), tera::Error>)
    ensures
        added is Ok ==> template_names(*final(engine)) == template_names(*old(engine)).insert(
            name@,
        ),
        added is Err ==> template_names(*final(engine)) == template_names(*old(engine))
            || template_names(*final(engine)) == template_names(*old(engine)).insert(name@),
        escaped_suffixes(*final(engine)) == escaped_suffixes(*old(engine)),
;

/// `Context::from_serialize` turns the variables into JSON and makes a
/// context of them where that gives a JSON object. Whether it does, and
/// what the context then binds, depends on the variables alone.
#[verifier::external_body]
fn context_from(globals: &serde_yaml::Value) -> (made: Result<tera::Context, tera::Error>)
    ensures
        match made {
            Ok(context) => context_of(*globals) == Some(bindings(context)),
            Err(_) => context_of(*globals) is None,
        },
{
    tera::Context::from_serialize(globals)
}

/// `Context::insert` binds `name` in the context to the JSON object of the
/// mapping from strings to strings that `pairs` make, in the place of what
/// `name` was bound to, and leaves every other binding as it is.
#[verifier::external_body]
fn context_insert_map(context: &mut tera::Context, name: &str, pairs: Vec<(String, String)>)
    requires
        distinct_keys(pairs@.map_values(|e: (String, String)| (e.0@, e.1@))),
    ensures
        bindings(*final(context)) == bindings(*old(context)).insert(
            name@,
            bound_strings(as_map(pairs@.map_values(|e: (String, String)| (e.0@, e.1@)))),
        ),
{
    let map: std::collections::HashMap<String, String> = pairs.into_iter().collect();
    context.insert(name, &map);
}

/// The text of a `tera::Error` with its causes, as `Debug` formats it.
#[verifier::external_body]
fn engine_error_text(e: &tera::Error) -> (text: String) {
    format!("{:?}", e)
}

/// The name under which a renderer keeps the template that it is working
/// on.
pub open spec fn template_name() -> Seq<char> {
    "inline"@
}

/// The name under which templates see the variables of the process.
pub open spec fn ambient_name() -> Seq<char> {
    "ENV"@
}

/// Whether a failure to make a string ready is one that the renderer may
/// report for the variables `globals`: the engine did not take the text, or
/// the variables make no context.
pub open spec fn refused(e: RenderError, globals: serde_yaml::Value) -> bool {
    e.stage == RenderStage::Template || (e.stage == RenderStage::Context && context_of(globals)
        is None)
}

/// A string that is ready to be rendered: an engine that holds it as its
/// only template, and the variables that it sees. To render it is to call
/// `engine.render(&name, &context)`; that call may run without end or
/// panic on some templates, and is left to the caller.
#[derive(Debug)]
pub struct Rendering {
    pub engine: tera::Tera,
    pub context: tera::Context,
    /// The name of the template in the engine.
    pub name: String,
    /// The text of the template.
    pub source: String,
}

impl Rendering {
    /// Whether this is the rendering of `text` against the variables
    /// `globals` and the variables `ambient` of the process: the engine
    /// holds `text` under the name of the rendering and no other template,
    /// and escapes nothing; the context binds what `globals` give and, over
    /// that, `ENV` to `ambient`.
    pub open spec fn renders(
        &self,
        text: Seq<char>,
        globals: serde_yaml::Value,
        ambient: Map<Seq<char>, Seq<char>>,
    ) -> bool {
        &&& self.source@ == text
        &&& self.name@ == template_name()
        &&& template_names(self.engine) == Set::<Seq<char>>::empty().insert(template_name())
        &&& escaped_suffixes(self.engine) == Seq::<Seq<char>>::empty()
        &&& context_of(globals) matches Some(given) && bindings(self.context) == given.insert(
            ambient_name(),
            bound_strings(ambient),
        )
    }
}

/// What rendering gave, as the outcome of the renderer: the text as it is,
/// and what the engine said of a failure as a failure of the last stage.
pub fn render_outcome(outcome: Result<String, String>) -> (out: Result<String, RenderError>)
    ensures
        match outcome {
            Ok(text) => out == Ok::<String, RenderError>(text),
            Err(detail) => out == Err::<String, RenderError>(
                RenderError { stage: RenderStage::Output, detail },
            ),
        },
{
    match outcome {
        Ok(text) => Ok(text),
        Err(detail) => Err(RenderError { stage: RenderStage::Output, detail }),
    }
}

/// Makes strings ready to be rendered against a context of variables.
pub struct Renderer {
    tera: tera::Tera,
}

impl Renderer {
    /// The names of the templates that the renderer keeps between calls.
    pub closed spec fn templates(&self) -> Set<Seq<char>> {
        template_names(self.tera)
    }

    /// The endings of template names for which the renderer escapes what
    /// it fills in.
    pub closed spec fn escaped(&self) -> Seq<Seq<char>> {
        escaped_suffixes(self.tera)
    }

    #[verifier::type_invariant]
    closed spec fn stateless(&self) -> bool {
        &&& template_names(self.tera) == Set::<Seq<char>>::empty()
        &&& escaped_suffixes(self.tera) == Seq::<Seq<char>>::empty()
    }

    /// A renderer that holds no template and escapes nothing.
    pub fn new() -> (renderer: Self)
        ensures
            renderer.templates() == Set::<Seq<char>>::empty(),
            renderer.escaped() == Seq::<Seq<char>>::empty(),
    {
        let mut tera = tera::Tera::default();
        let none: Vec<&'static str> = Vec::new();
        proof {
            assert(none@.map_values(|s: &'static str| s@) =~= Seq::<Seq<char>>::empty());
        }
        tera.autoescape_on(none);
        Renderer { tera }
    }

    /// Makes `s` ready to be rendered against the variables of `ctx`, with
    /// `ambient` under the name `ENV`. The template is parsed into a copy of
    /// the engine, so no call sees a template of another. Where the engine
    /// takes the text, the outcome is decided by the variables: a rendering
    /// where they make a context, and a failure of the stage `Context`
    /// where they make none.
    pub fn render_str(&self, s: &str, ctx: &serde_yaml::Value, ambient: &EnvMap) -> (rendered:
        Result<Rendering, RenderError>)
        ensures
            rendered matches Ok(job) ==> job.renders(s@, *ctx, ambient@),
            rendered matches Err(e) ==> refused(e, *ctx),
    {
        proof {
            use_type_invariant(self);
            use_type_invariant(ambient);
        }
        let mut engine = self.tera.clone();
        match engine.add_raw_template("inline", s) {
            Ok(_) => {},
            Err(e) => {
                return Err(
                    RenderError { stage: RenderStage::Template, detail: engine_error_text(&e) },
                );
            },
        }
        let mut context = match context_from(ctx) {
            Ok(context) => context,
            Err(e) => {
                return Err(
                    RenderError { stage: RenderStage::Context, detail: engine_error_text(&e) },
                );
            },
        };
        context_insert_map(&mut context, "ENV", ambient.to_pairs());
        Ok(
            Rendering {
                engine,
                context,
                name: String::from_str("inline"),
                source: String::from_str(s),
            },
        )
    }

    /// `map` with the rendered text of each value in the place of the
    /// value, in the order of `map`; nothing where the number of texts is
    /// not the number of values.
    pub fn render_map(&self, map: &EnvMap, rendered: &Vec<String>) -> (out: Option<EnvMap>)
        ensures
            match out {
                Some(m) => rendered.len() == map.pairs().len() && m.pairs() == with_values(
                    map.pairs(),
                    texts(rendered@),
                ),
                None => rendered.len() != map.pairs().len(),
            },
    {
        if rendered.len() != map.len() {
            return None;
        }
        let out = map.with_values(rendered, 0);
        proof {
            assert(texts(rendered@).subrange(0, rendered.len() as int) =~= texts(rendered@));
        }
        out
    }
}

} // verus!
