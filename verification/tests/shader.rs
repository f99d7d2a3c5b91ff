use airplane::pipeline::{
    compute_pipeline, render_pipeline, BlendFactor, ComputePass, DrawPass, ShaderFile, Topology,
};
use airplane::resources::LayoutId;
use airplane::shader::load_shader;

fn load(source: &str, tags: &[&str]) -> Result<String, String> {
    load_shader("x.wgsl", Ok(source.to_string()), tags)
}

#[test]
fn a_declared_tag_is_found() {
    let source = "@compute @workgroup_size(64)\nfn main() {}\n";
    assert_eq!(load(source, &["@compute"]), Ok(source.to_string()));
}

#[test]
fn the_source_comes_back_unchanged() {
    let source = "// head\r\n@vertex fn v() {} // tail\r\n@fragment fn f() {}";
    assert_eq!(load(source, &["@vertex", "@fragment"]), Ok(source.to_string()));
}

#[test]
fn a_tag_in_a_comment_does_not_count() {
    assert!(load("// @compute\n", &["@compute"]).is_err());
    assert!(load("fn f() {} // @compute", &["@compute"]).is_err());
    assert!(load("fn f() {} /// @compute\r\n", &["@compute"]).is_err());
}

#[test]
fn a_tag_before_a_comment_counts() {
    assert!(load("@compute // here", &["@compute"]).is_ok());
    assert!(load("// first\n@compute//x", &["@compute"]).is_ok());
}

#[test]
fn the_text_of_a_comment_does_not_matter() {
    for comment in ["", "@compute", "/ @compute //", "\u{e9}\u{4e16}"] {
        let source = format!("fn f() {{}} //{}\nfn g() {{}}", comment);
        assert!(load(&source, &["@compute"]).is_err());
        let with = format!("fn f() {{}} //{}\n@compute fn g() {{}}", comment);
        assert!(load(&with, &["@compute"]).is_ok());
    }
}

#[test]
fn one_slash_is_no_comment() {
    assert!(load("a / b; @compute", &["@compute"]).is_ok());
    assert!(load("/\n/@compute", &["@compute"]).is_ok());
}

#[test]
fn a_tag_does_not_run_over_a_line_end() {
    assert!(load("@comp\nute", &["@compute"]).is_err());
    assert!(load("@comp//\nute", &["@compute"]).is_err());
}

#[test]
fn line_endings_leave_their_carriage_return_out() {
    // The carriage return of a line ending is no part of the code ...
    assert!(load("a\r\nb", &["a\nb"]).is_ok());
    assert!(load("a\r\nb", &["\r"]).is_err());
    // ... but one on its own is, and so is one that a comment follows.
    assert!(load("a\rb", &["a\rb"]).is_ok());
    assert!(load("a\r", &["a\r"]).is_ok());
    assert!(load("a\r//x\nb", &["a\r\nb"]).is_ok());
}

#[test]
fn the_code_agrees_with_the_lines_of_the_text() {
    let samples = [
        "", "\n", "\n\n", "a", "a\n", "a\n\nb\n", "a//b\r\nc\r\n", "//\n//\n", "a\r\n\r\n//x", "x/",
        "x///y", "\r\n", "a\r\r\nb", "\u{e9}//\u{e9}\n\u{4e16}",
    ];
    for source in samples {
        let code: String = source
            .lines()
            .map(|l| l.split("//").next().unwrap_or(""))
            .collect::<Vec<_>>()
            .join("\n");
        // The whole code stands in itself, and one character more does not.
        assert!(load(source, &[code.as_str()]).is_ok());
        let longer = format!("{}#", code);
        assert!(load(source, &[longer.as_str()]).is_err());
        for part in ["a", "b", "c", "/", "//", "\n", "\r", "a\n", "\n\n", "x", "\u{e9}", "\u{4e16}"] {
            assert_eq!(load(source, &[part]).is_ok(), code.contains(part), "{:?} {:?}", source, part);
        }
    }
}

#[test]
fn no_tags_and_an_empty_tag_are_always_there() {
    assert_eq!(load("", &[]), Ok(String::new()));
    assert_eq!(load("", &[""]), Ok(String::new()));
    assert!(load("", &["a"]).is_err());
}

#[test]
fn the_first_missing_tag_is_named() {
    assert_eq!(
        load("@fragment", &["@vertex", "@fragment"]),
        Err("x.wgsl: no @vertex entry point yet — that pass is disabled".to_string())
    );
    assert_eq!(
        load("@vertex", &["@vertex", "@fragment"]),
        Err("x.wgsl: no @fragment entry point yet — that pass is disabled".to_string())
    );
    assert_eq!(
        load("", &["@vertex", "@fragment"]),
        Err("x.wgsl: no @vertex entry point yet — that pass is disabled".to_string())
    );
}

#[test]
fn an_unreadable_file_is_reported() {
    assert_eq!(
        load_shader("x.wgsl", Err("no such file".to_string()), &["@compute"]),
        Err("x.wgsl: no such file — that pass is disabled".to_string())
    );
}

#[test]
fn a_commented_out_file_declares_nothing() {
    assert!(load("//@compute\n// @vertex\n//", &["@"]).is_err());
}

fn file(source: &str) -> ShaderFile {
    ShaderFile { path: "p".to_string(), read: Ok(source.to_string()) }
}

#[test]
fn compute_pipelines() {
    let expected = [
        (ComputePass::Agents, "agent pass", LayoutId::AgentPass, "update_agents"),
        (ComputePass::Diffuse, "diffuse pass", LayoutId::DiffusePass, "diffuse"),
        (ComputePass::Init, "init pass", LayoutId::InitPass, "init_agents"),
    ];
    for (pass, label, layout, entry) in expected {
        let plan = compute_pipeline(pass, file("@compute")).unwrap();
        assert_eq!(plan.pass, pass);
        assert_eq!(plan.label, label);
        assert_eq!(plan.layout, layout);
        assert_eq!(plan.entry_point, entry);
        assert_eq!(plan.source, "@compute");
        assert_eq!(
            compute_pipeline(pass, file("@vertex")).unwrap_err(),
            "p: no @compute entry point yet — that pass is disabled"
        );
    }
    assert_eq!(ComputePass::Agents.shader("/home/project"), "/home/project/shaders/compute.wgsl");
    assert_eq!(ComputePass::Diffuse.shader("/home/project"), "/home/project/shaders/diffuse.wgsl");
    assert_eq!(ComputePass::Init.shader("/home/project"), "/home/project/shaders/init.wgsl");
    assert_eq!(ComputePass::Agents.label(), "update agents");
    assert_eq!(ComputePass::Diffuse.label(), "diffuse + decay");
    assert_eq!(ComputePass::Init.label(), "init agents");
}

#[test]
fn render_pipelines() {
    let trail = render_pipeline(DrawPass::Trail, file("@vertex @fragment")).unwrap();
    assert_eq!(trail.label, "trail");
    assert_eq!(trail.layout, LayoutId::TrailDraw);
    assert_eq!(trail.vertex_entry, "vs_main");
    assert_eq!(trail.fragment_entry, "fs_main");
    assert_eq!(trail.topology, Topology::TriangleStrip);
    assert_eq!(trail.blend, None);
    assert_eq!(trail.source, "@vertex @fragment");

    let agents = render_pipeline(DrawPass::Agents, file("@vertex @fragment")).unwrap();
    assert_eq!(agents.label, "agent billboards");
    assert_eq!(agents.layout, LayoutId::AgentDraw);
    let blend = agents.blend.unwrap();
    assert_eq!(blend.color.src_factor, BlendFactor::SrcAlpha);
    assert_eq!(blend.color.dst_factor, BlendFactor::One);
    assert_eq!(blend.alpha.src_factor, BlendFactor::One);
    assert_eq!(blend.alpha.dst_factor, BlendFactor::OneMinusSrcAlpha);

    assert_eq!(
        render_pipeline(DrawPass::Agents, file("@vertex")).unwrap_err(),
        "p: no @fragment entry point yet — that pass is disabled"
    );
    assert_eq!(DrawPass::Trail.shader("/home/project"), "/home/project/shaders/trail.wgsl");
    assert_eq!(DrawPass::Agents.shader("/home/project"), "/home/project/shaders/render.wgsl");
}
