use rnt::dsda_doom::{Complevel, DsdaArgs, Renderer, Skill, level_token};

fn strings(items: &[&str]) -> Vec<String> {
    items.iter().map(|s| (*s).to_owned()).collect()
}

#[test]
fn test_should_generate_valid_dsda_cli_arguments() {
    let args = DsdaArgs {
        iwad: "doom2.wad".to_owned(),
        warp: Some(1),
        renderer: Some(Renderer::Software),
        skill: Some(Skill::Hard),
        complevel: Some(Complevel::Doom19),
        pistolstart: true,
        files: strings(&["test.wad", "test2.wad"]),
        extra: strings(&["-extra"]),
    };
    let expected = [
        "-iwad",
        "doom2.wad",
        "-warp",
        "1",
        "-vidmode",
        "sw",
        "-skill",
        "4",
        "-complevel",
        "2",
        "-pistolstart",
        "-file",
        "test.wad",
        "test2.wad",
        "-extra",
    ];

    let actual = args.generate_arguments();

    assert_eq!(actual, expected);
}

#[test]
fn test_should_return_default_arguments() {
    let args = DsdaArgs {
        iwad: "doom2.wad".to_owned(),
        warp: None,
        renderer: None,
        skill: None,
        complevel: None,
        pistolstart: false,
        files: vec![],
        extra: vec![],
    };
    let expected = ["-iwad", "doom2.wad"];

    let actual = args.generate_arguments();

    assert_eq!(actual, expected);
}

#[test]
fn test_renderer_tokens() {
    assert_eq!(Renderer::Software.token(), "sw");
    assert_eq!(Renderer::OpenGL.token(), "gl");
}

#[test]
fn test_skill_tokens() {
    assert_eq!(Skill::Baby.token(), "1");
    assert_eq!(Skill::Easy.token(), "2");
    assert_eq!(Skill::Medium.token(), "3");
    assert_eq!(Skill::Hard.token(), "4");
    assert_eq!(Skill::Nightmare.token(), "5");
}

#[test]
fn test_complevel_tokens() {
    assert_eq!(Complevel::Doom19.token(), "2");
    assert_eq!(Complevel::UDoom.token(), "3");
    assert_eq!(Complevel::FinalDoom.token(), "4");
    assert_eq!(Complevel::Boom.token(), "9");
    assert_eq!(Complevel::Mbf.token(), "11");
    assert_eq!(Complevel::Mbf21.token(), "21");
}

#[test]
fn test_level_token_renders_base_ten_without_leading_zero() {
    assert_eq!(level_token(1), "1");
    assert_eq!(level_token(9), "9");
    assert_eq!(level_token(10), "10");
    assert_eq!(level_token(32), "32");
    assert_eq!(level_token(99), "99");
    assert_eq!(level_token(100), "100");
    assert_eq!(level_token(255), "255");
}

fn sample_config() -> DsdaArgs {
    DsdaArgs {
        iwad: "doom.wad".to_owned(),
        warp: Some(18),
        renderer: Some(Renderer::OpenGL),
        skill: Some(Skill::Nightmare),
        complevel: Some(Complevel::Mbf21),
        pistolstart: false,
        files: strings(&["one.wad", "two.wad"]),
        extra: strings(&["-nomusic", "-fast"]),
    }
}

#[test]
fn test_compilation_is_idempotent() {
    let first = sample_config().generate_arguments();
    let second = sample_config().generate_arguments();
    assert_eq!(first, second);
}

#[test]
fn test_adding_passthrough_token_only_appends() {
    let base = sample_config().generate_arguments();
    let mut extended_config = sample_config();
    extended_config.extra.push("-levelstat".to_owned());
    let extended = extended_config.generate_arguments();

    assert_eq!(extended.len(), base.len() + 1);
    assert_eq!(&extended[..base.len()], &base[..]);
    assert_eq!(extended[base.len()], "-levelstat");
}

#[test]
fn test_supplemental_asset_order_preserved_without_dedup() {
    let args = DsdaArgs {
        iwad: "doom.wad".to_owned(),
        warp: None,
        renderer: None,
        skill: None,
        complevel: None,
        pistolstart: false,
        files: strings(&["z.wad", "a.wad", "z.wad", "m.wad"]),
        extra: vec![],
    };
    let expected = ["-iwad", "doom.wad", "-file", "z.wad", "a.wad", "z.wad", "m.wad"];

    assert_eq!(args.generate_arguments(), expected);
}

#[test]
fn test_segment_order_with_sparse_fields() {
    let args = DsdaArgs {
        iwad: "tnt.wad".to_owned(),
        warp: Some(255),
        renderer: None,
        skill: Some(Skill::Baby),
        complevel: None,
        pistolstart: true,
        files: vec![],
        extra: strings(&["-extra"]),
    };
    let expected = ["-iwad", "tnt.wad", "-warp", "255", "-skill", "1", "-pistolstart", "-extra"];

    assert_eq!(args.generate_arguments(), expected);
}

#[test]
fn test_empty_supplemental_assets_emit_no_marker() {
    let args = DsdaArgs {
        iwad: "doom.wad".to_owned(),
        warp: None,
        renderer: Some(Renderer::Software),
        skill: None,
        complevel: None,
        pistolstart: false,
        files: vec![],
        extra: vec![],
    };
    let actual = args.generate_arguments();

    assert!(!actual.iter().any(|t| t == "-file"));
    assert_eq!(actual, ["-iwad", "doom.wad", "-vidmode", "sw"]);
}

#[test]
fn test_passthrough_forwarded_verbatim_and_last() {
    let args = DsdaArgs {
        iwad: "doom.wad".to_owned(),
        warp: None,
        renderer: None,
        skill: None,
        complevel: None,
        pistolstart: false,
        files: strings(&["p.wad"]),
        extra: strings(&["--weird flag", "", "-warp"]),
    };
    let expected = ["-iwad", "doom.wad", "-file", "p.wad", "--weird flag", "", "-warp"];

    assert_eq!(args.generate_arguments(), expected);
}
