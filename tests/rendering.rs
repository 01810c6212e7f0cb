use wsb_launcher::sandbox::{
    generate_config_file, get_boolean_text, Config, FolderMapper, OfflineSandbox,
    OfflineSession,
};

fn render(config: &Config) -> String {
    generate_config_file(config)
}

fn position(text: &str, needle: &str) -> usize {
    text.find(needle).unwrap_or_else(|| panic!("{needle} not found in {text}"))
}

#[test]
fn scenario_single_read_only_folder() {
    let config = Config::new(
        vec![FolderMapper::new("C:\\Data".to_string(), true)],
        false,
        "notepad.exe".to_string(),
        true,
    );
    let text = render(&config);
    assert!(text.contains("<Networking>Disabled</Networking>"));
    assert!(text.contains("<VGpu>Default </VGpu>"));
    assert!(text.contains("<Command>notepad.exe</Command>"));
    assert!(text.contains("<HostFolder>C:\\Data</HostFolder>"));
    assert!(text.contains("<ReadOnly>true</ReadOnly>"));
    assert_eq!(text.matches("<MappedFolder>").count(), 1);
}

#[test]
fn rendering_twice_gives_identical_bytes() {
    let make = || {
        Config::new(
            vec![
                FolderMapper::new("C:\\One".to_string(), false),
                FolderMapper::new("D:\\Two".to_string(), true),
            ],
            true,
            "cmd.exe /c dir".to_string(),
            false,
        )
    };
    let config = make();
    assert_eq!(render(&config).into_bytes(), render(&config).into_bytes());
    assert_eq!(render(&config), render(&make()));
}

#[test]
fn elements_come_in_fixed_order() {
    let config = Config::new(
        vec![
            FolderMapper::new("C:\\First".to_string(), true),
            FolderMapper::new("C:\\Second".to_string(), false),
        ],
        false,
        "explorer.exe".to_string(),
        true,
    );
    let text = render(&config);
    let order = [
        "<Configuration>",
        "<VGpu>",
        "<Networking>",
        "<LogonCommand>",
        "<Command>",
        "</LogonCommand>",
        "<MappedFolders>",
        "<HostFolder>C:\\First</HostFolder>",
        "<ReadOnly>true</ReadOnly>",
        "<HostFolder>C:\\Second</HostFolder>",
        "<ReadOnly>false</ReadOnly>",
        "</MappedFolders>",
        "</Configuration>",
    ];
    for pair in order.windows(2) {
        assert!(position(&text, pair[0]) < position(&text, pair[1]), "{} before {}", pair[0], pair[1]);
    }
}

#[test]
fn boolean_texts_of_each_element() {
    let on = render(&Config::new(vec![FolderMapper::new("X".to_string(), false)], true, String::new(), true));
    assert!(on.contains("<VGpu>Default </VGpu>"));
    assert!(on.contains("<Networking>Default </Networking>"));
    assert!(on.contains("<ReadOnly>false</ReadOnly>"));
    let off = render(&Config::new(vec![FolderMapper::new("X".to_string(), true)], false, String::new(), false));
    assert!(off.contains("<VGpu>Disabled</VGpu>"));
    assert!(off.contains("<Networking>Disabled</Networking>"));
    assert!(off.contains("<ReadOnly>true</ReadOnly>"));
    assert!(!on.contains("<ReadOnly>Default") && !off.contains("<ReadOnly>Disabled"));
}

#[test]
fn get_boolean_text_values() {
    assert_eq!(get_boolean_text(true), "Default ");
    assert_eq!(get_boolean_text(false), "Disabled");
}

#[test]
fn empty_folder_list_gives_empty_element() {
    let text = render(&Config::default());
    assert!(text.contains("<MappedFolders />"));
    assert!(!text.contains("<MappedFolder>"));
    assert!(!text.contains("<HostFolder"));
}

#[test]
fn empty_logon_script_renders_an_empty_command() {
    let text = render(&Config::default());
    assert!(text.contains("<LogonCommand>"));
    assert!(text.contains("<Command"));
    assert!(!text.contains("<Command>x"));
}

#[test]
fn reserved_characters_are_escaped() {
    let config = Config::new(
        vec![FolderMapper::new("C:\\a<b>&c".to_string(), false)],
        false,
        "run.cmd > out & more".to_string(),
        false,
    );
    let text = render(&config);
    assert!(text.contains("<HostFolder>C:\\a&lt;b&gt;&amp;c</HostFolder>"));
    assert!(text.contains("<Command>run.cmd &gt; out &amp; more</Command>"));
}

#[test]
fn duplicate_folders_are_kept() {
    let config = Config::new(
        vec![
            FolderMapper::new("C:\\Same".to_string(), true),
            FolderMapper::new("C:\\Same".to_string(), true),
        ],
        false,
        String::new(),
        false,
    );
    assert_eq!(render(&config).matches("<HostFolder>C:\\Same</HostFolder>").count(), 2);
}

#[test]
fn document_is_indented() {
    let text = render(&Config::default());
    assert!(text.starts_with("<?xml"));
    assert!(text.contains("\n  <VGpu>Disabled</VGpu>"));
}

#[test]
fn offline_session_renders_its_configuration() {
    let config = Config::new(vec![], false, "calc.exe".to_string(), false);
    let expected = render(&config);
    let session = OfflineSession { sandbox: OfflineSandbox { config } };
    assert_eq!(session.render(), expected);
}

#[test]
fn config_accessors() {
    let config = Config::new(vec![FolderMapper::new("P".to_string(), true)], true, "s".to_string(), false);
    assert_eq!(config.folder_mappers().len(), 1);
    assert_eq!(config.folder_mappers()[0].path(), "P");
    assert!(config.folder_mappers()[0].read_only());
    assert!(config.networking());
    assert_eq!(config.logon_script(), "s");
    assert!(!config.virtual_gpu());
    let default = Config::default();
    assert!(default.folder_mappers().is_empty() && !default.networking && !default.virtual_gpu());
    assert_eq!(default.logon_script(), "");
}
