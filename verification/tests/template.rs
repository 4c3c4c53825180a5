use rust_runner::env::EnvMap;
use rust_runner::error::{RenderError, RenderStage};
use rust_runner::template::{render_outcome, Renderer};

trait RenderNow {
    fn render_now(&self, s: &str, ctx: &serde_yaml::Value, ambient: &EnvMap) -> Result<String, RenderError>;
}

impl RenderNow for Renderer {
    fn render_now(&self, s: &str, ctx: &serde_yaml::Value, ambient: &EnvMap) -> Result<String, RenderError> {
        let job = self.render_str(s, ctx, ambient)?;
        assert_eq!(job.source, s);
        assert_eq!(job.name, "inline");
        let names: Vec<&str> = job.engine.get_template_names().collect();
        assert_eq!(names, vec!["inline"]);
        render_outcome(job.engine.render(&job.name, &job.context).map_err(|e| format!("{:?}", e)))
    }
}

fn yaml(text: &str) -> serde_yaml::Value {
    serde_yaml::from_str(text).unwrap()
}

fn env_of(pairs: &[(&str, &str)]) -> EnvMap {
    let mut m = EnvMap::new();
    for (k, v) in pairs {
        m.insert(k.to_string(), v.to_string());
    }
    m
}

#[test]
fn render_fills_in_a_global() {
    let r = Renderer::new();
    let out = r.render_now("echo {{name}}", &yaml("name: hi"), &EnvMap::new()).unwrap();
    assert_eq!(out, "echo hi");
}

#[test]
fn render_reaches_into_nested_globals() {
    let r = Renderer::new();
    let ctx = yaml("app:\n  port: 8080\n  hosts: [a, b]\n");
    let out = r
        .render_now("{{ app.port }} {{ app.hosts | join(sep=\",\") }} {% if app.port > 80 %}high{% endif %}", &ctx, &EnvMap::new())
        .unwrap();
    assert_eq!(out, "8080 a,b high");
}

#[test]
fn render_sees_the_ambient_variables_under_env() {
    let r = Renderer::new();
    let ambient = env_of(&[("HOME", "/home/me"), ("LANG", "C")]);
    let out = r.render_now("{{ ENV.HOME }}:{{ ENV.LANG }}", &yaml("{}"), &ambient).unwrap();
    assert_eq!(out, "/home/me:C");
}

#[test]
fn render_env_hides_a_global_of_the_same_name() {
    let r = Renderer::new();
    let ambient = env_of(&[("X", "ambient")]);
    let out = r.render_now("{{ ENV.X }}", &yaml("ENV:\n  X: global\n"), &ambient).unwrap();
    assert_eq!(out, "ambient");
}

#[test]
fn render_does_not_escape_for_html() {
    let r = Renderer::new();
    let out = r.render_now("{{ cmd }}", &yaml("cmd: \"a && b > 'c' <d>\""), &EnvMap::new()).unwrap();
    assert_eq!(out, "a && b > 'c' <d>");
}

#[test]
fn render_of_text_without_template_syntax_is_the_text() {
    let r = Renderer::new();
    let out = r.render_now("plain text $HOME 100%", &yaml("{}"), &EnvMap::new()).unwrap();
    assert_eq!(out, "plain text $HOME 100%");
}

#[test]
fn rendering_again_changes_nothing_where_no_syntax_is_left() {
    let r = Renderer::new();
    let ctx = yaml("name: hi");
    let once = r.render_now("echo {{name}}", &ctx, &EnvMap::new()).unwrap();
    let twice = r.render_now(&once, &ctx, &EnvMap::new()).unwrap();
    assert_eq!(once, twice);
}

#[test]
fn rendering_again_goes_on_where_syntax_is_left() {
    let r = Renderer::new();
    let ctx = yaml("a: \"{{ b }}\"\nb: deep\n");
    let once = r.render_now("{{ a }}", &ctx, &EnvMap::new()).unwrap();
    assert_eq!(once, "{{ b }}");
    let twice = r.render_now(&once, &ctx, &EnvMap::new()).unwrap();
    assert_eq!(twice, "deep");
}

#[test]
fn render_fails_on_an_undefined_variable() {
    let r = Renderer::new();
    let e = r.render_now("echo {{ missing }}", &yaml("name: hi"), &EnvMap::new()).unwrap_err();
    assert_eq!(e.stage, RenderStage::Output);
    assert!(e.detail.contains("missing"), "{}", e.detail);
}

#[test]
fn render_takes_a_default_for_an_undefined_variable() {
    let r = Renderer::new();
    let out = r
        .render_now("{{ missing | default(value=\"fallback\") }}", &yaml("{}"), &EnvMap::new())
        .unwrap();
    assert_eq!(out, "fallback");
}

#[test]
fn render_fails_on_a_syntax_error() {
    let r = Renderer::new();
    for bad in ["{{ name", "{% if %}", "{{ }}", "{% endfor %}"] {
        let e = r.render_now(bad, &yaml("name: hi"), &EnvMap::new()).unwrap_err();
        assert_eq!(e.stage, RenderStage::Template, "{:?}", bad);
        assert!(!e.detail.is_empty());
    }
}

#[test]
fn render_fails_where_the_globals_are_no_mapping() {
    let r = Renderer::new();
    for globals in [serde_yaml::Value::Null, yaml("[1, 2]"), yaml("just text"), yaml("3")] {
        let e = r.render_now("plain", &globals, &EnvMap::new()).unwrap_err();
        assert_eq!(e.stage, RenderStage::Context);
    }
}

#[test]
fn render_keeps_no_template_between_calls() {
    let r = Renderer::new();
    let ctx = yaml("{}");
    assert_eq!(r.render_now("first", &ctx, &EnvMap::new()).unwrap(), "first");
    assert_eq!(r.render_now("second", &ctx, &EnvMap::new()).unwrap(), "second");
    let e = r.render_now("{% extends \"other\" %}", &ctx, &EnvMap::new()).unwrap_err();
    assert_eq!(e.stage, RenderStage::Template);
    assert!(r.render_now("{% include \"first\" %}", &ctx, &EnvMap::new()).is_err());
    assert_eq!(r.render_now("third", &ctx, &EnvMap::new()).unwrap(), "third");
}

#[test]
fn render_map_puts_the_texts_in_the_place_of_the_values() {
    let r = Renderer::new();
    let map = env_of(&[("Z", "{{ n }}"), ("A", "plain"), ("{{ n }}", "{{ n }}{{ n }}")]);
    let ctx = yaml("n: 7");
    let mut texts = Vec::new();
    for template in map.values() {
        texts.push(r.render_now(&template, &ctx, &EnvMap::new()).unwrap());
    }
    let out = r.render_map(&map, &texts).unwrap();
    assert_eq!(
        out.to_pairs(),
        vec![
            ("Z".to_string(), "7".to_string()),
            ("A".to_string(), "plain".to_string()),
            ("{{ n }}".to_string(), "77".to_string()),
        ]
    );
}

#[test]
fn render_map_of_nothing_is_empty() {
    let r = Renderer::new();
    let out = r.render_map(&EnvMap::new(), &Vec::new()).unwrap();
    assert!(out.is_empty());
}

#[test]
fn render_map_wants_one_text_for_each_value() {
    let r = Renderer::new();
    let map = env_of(&[("A", "a"), ("B", "b")]);
    assert!(r.render_map(&map, &vec!["1".to_string()]).is_none());
    assert!(r.render_map(&map, &vec!["1".to_string(), "2".to_string(), "3".to_string()]).is_none());
    assert!(r.render_map(&EnvMap::new(), &vec!["1".to_string()]).is_none());
    assert!(r.render_map(&map, &vec!["1".to_string(), "2".to_string()]).is_some());
}

#[test]
fn a_text_that_does_not_parse_fails_before_the_context_is_looked_at() {
    let r = Renderer::new();
    let e = r.render_str("{{ broken", &serde_yaml::Value::Null, &EnvMap::new()).unwrap_err();
    assert_eq!(e.stage, RenderStage::Template);
    let e = r.render_str("fine", &serde_yaml::Value::Null, &EnvMap::new()).unwrap_err();
    assert_eq!(e.stage, RenderStage::Context);
    assert!(r.render_str("fine", &yaml("{}"), &EnvMap::new()).is_ok());
}

#[test]
fn render_outcome_marks_a_failure_as_one_of_the_last_stage() {
    assert_eq!(render_outcome(Ok("text".to_string())).unwrap(), "text");
    let e = render_outcome(Err("no such variable".to_string())).unwrap_err();
    assert_eq!(e.stage, RenderStage::Output);
    assert_eq!(e.detail, "no such variable");
}

#[test]
fn new_renderer_holds_no_template() {
    let r = Renderer::new();
    let e = r.render_now("{% include \"inline.html\" %}", &yaml("{}"), &EnvMap::new());
    assert!(e.is_err());
    let e = r.render_now("{% import \"macros\" as m %}", &yaml("{}"), &EnvMap::new()).unwrap_err();
    assert_eq!(e.stage, RenderStage::Template);
}

#[test]
fn new_renderer_escapes_nothing() {
    let r = Renderer::new();
    let ctx = yaml("v: \"<a href='x'>&\\\"</a>\"");
    let out = r.render_now("{{ v }}", &ctx, &EnvMap::new()).unwrap();
    assert_eq!(out, "<a href='x'>&\"</a>");
}

#[test]
fn rendering_binds_env_over_what_the_globals_give() {
    let r = Renderer::new();
    let ambient = env_of(&[("HOME", "/home/me"), ("LANG", "C")]);
    let job = r.render_str("x", &yaml("name: hi\nENV: hidden\nn: 3"), &ambient).unwrap();
    assert_eq!(job.context.get("name").and_then(|v| v.as_str()), Some("hi"));
    assert_eq!(job.context.get("n").and_then(|v| v.as_u64()), Some(3));
    let env = job.context.get("ENV").and_then(|v| v.as_object()).unwrap();
    assert_eq!(env.len(), 2);
    assert_eq!(env.get("HOME").and_then(|v| v.as_str()), Some("/home/me"));
    assert_eq!(env.get("LANG").and_then(|v| v.as_str()), Some("C"));
    assert!(job.context.get("other").is_none());

    let job = r.render_str("x", &yaml("{}"), &EnvMap::new()).unwrap();
    assert_eq!(job.context.get("ENV").and_then(|v| v.as_object()).map(|o| o.len()), Some(0));
}

#[test]
fn globals_that_are_no_mapping_make_no_context_whatever_the_text() {
    let r = Renderer::new();
    for text in ["plain", "{{ a }}", ""] {
        let e = r.render_str(text, &yaml("[1, 2]"), &EnvMap::new()).unwrap_err();
        assert_eq!(e.stage, RenderStage::Context);
        assert!(!e.detail.is_empty());
    }
    let keyed_by_a_list = yaml("? [1, 2]\n: x\n");
    let e = r.render_str("plain", &keyed_by_a_list, &EnvMap::new()).unwrap_err();
    assert_eq!(e.stage, RenderStage::Context);
}
