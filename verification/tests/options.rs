use dxfilter::shader_options::{assemble_shader_input, ShaderOption};
use dxfilter::DxFilterErr;

#[test]
fn shader_options_assemble_with_defaults() {
    let input = assemble_shader_input(vec![
        ShaderOption::Src("float4 main() : SV_Target { return 0; }".to_string()),
        ShaderOption::EntryPoint("main".to_string()),
        ShaderOption::Target("ps_5_0".to_string()),
    ])
    .unwrap();
    assert_eq!(input.src_data, "float4 main() : SV_Target { return 0; }");
    assert_eq!(input.src_name, None);
    assert!(input.defines.is_empty());
    assert_eq!(input.entry_point, "main");
    assert_eq!(input.target, "ps_5_0");
    assert_eq!((input.flags1, input.flags2, input.secondary_data_flags), (0, 0, 0));
    assert!(input.secondary_data.is_empty());
}

#[test]
fn shader_options_last_value_wins_and_defines_accumulate() {
    let input = assemble_shader_input(vec![
        ShaderOption::Src("source".to_string()),
        ShaderOption::Target("ps_4_0".to_string()),
        ShaderOption::Define("WIDTH".to_string(), "32".to_string()),
        ShaderOption::EntryPoint("first".to_string()),
        ShaderOption::Define("HEIGHT".to_string(), "16".to_string()),
        ShaderOption::Target("ps_5_0".to_string()),
        ShaderOption::EntryPoint("main".to_string()),
        ShaderOption::Flags1(1),
        ShaderOption::Flags1(4),
        ShaderOption::SecondaryData(vec![1, 2, 3]),
    ])
    .unwrap();
    assert_eq!(input.entry_point, "main");
    assert_eq!(input.target, "ps_5_0");
    assert_eq!(input.flags1, 4);
    assert_eq!(
        input.defines,
        vec![
            ("WIDTH".to_string(), "32".to_string()),
            ("HEIGHT".to_string(), "16".to_string())
        ]
    );
    assert_eq!(input.secondary_data, vec![1, 2, 3]);
}

#[test]
fn shader_options_src_file_sets_include_dir() {
    let input = assemble_shader_input(vec![
        ShaderOption::SrcFile {
            contents: "source text".to_string(),
            include_dir: "shaders".to_string(),
        },
        ShaderOption::EntryPoint("main".to_string()),
        ShaderOption::Target("vs_5_0".to_string()),
    ])
    .unwrap();
    assert_eq!(input.src_data, "source text");
    assert_eq!(input.src_name, Some("shaders".to_string()));

    let input = assemble_shader_input(vec![
        ShaderOption::SrcFile {
            contents: "source text".to_string(),
            include_dir: "shaders".to_string(),
        },
        ShaderOption::SrcName("elsewhere".to_string()),
        ShaderOption::EntryPoint("main".to_string()),
        ShaderOption::Target("vs_5_0".to_string()),
    ])
    .unwrap();
    assert_eq!(input.src_name, Some("elsewhere".to_string()));
}

#[test]
fn shader_options_missing_required_fields() {
    match assemble_shader_input(vec![]) {
        Err(DxFilterErr::BadParam(m)) => assert_eq!(m, "shader source is required"),
        _ => panic!("expected BadParam"),
    }
    match assemble_shader_input(vec![ShaderOption::Src("s".to_string())]) {
        Err(DxFilterErr::BadParam(m)) => assert_eq!(m, "entry_point is required"),
        _ => panic!("expected BadParam"),
    }
    match assemble_shader_input(vec![
        ShaderOption::Src("s".to_string()),
        ShaderOption::EntryPoint("main".to_string()),
    ]) {
        Err(DxFilterErr::BadParam(m)) => assert_eq!(m, "target is required"),
        _ => panic!("expected BadParam"),
    }
}
