use cutekit::config::{
    config_home, directory_step, needs_default_file, settings_path, stylesheet_path, ConfFile,
    ConfigSource, DirectoryStep, SystemConfig,
};

#[test]
fn conf_file_reads_back_its_contents() {
    let conf = ConfFile::from_contents("[{\"layer\": \"top\"}]".to_string());
    assert_eq!(conf.read(), "[{\"layer\": \"top\"}]");
    assert_eq!(conf.read(), conf.read());
    assert_eq!(ConfFile::from_contents(String::new()).read(), "");
}

#[test]
fn system_config_holds_the_helper_path() {
    let config = SystemConfig::new("/usr/lib/polkit-1/polkit-agent-helper-1".to_string());
    assert_eq!(config.get_helper_path(), "/usr/lib/polkit-1/polkit-agent-helper-1");
    assert_eq!(config.clone(), config);
}

#[test]
fn local_file_wins_over_distribution_file_over_defaults() {
    assert_eq!(ConfigSource::select(true, true), ConfigSource::Local);
    assert_eq!(ConfigSource::select(true, false), ConfigSource::Local);
    assert_eq!(ConfigSource::select(false, true), ConfigSource::Distribution);
    assert_eq!(ConfigSource::select(false, false), ConfigSource::BuiltIn);
}

#[test]
fn sources_name_their_files() {
    assert_eq!(ConfigSource::Local.path(), Some("/usr/local/etc/cutekit/config.toml"));
    assert_eq!(ConfigSource::Distribution.path(), Some("/etc/cutekit/config.toml"));
    assert_eq!(ConfigSource::BuiltIn.path(), None);
}

#[test]
fn settings_directory_is_created_when_missing() {
    assert_eq!(directory_step(true, true, true), DirectoryStep::Keep);
    assert_eq!(directory_step(true, true, false), DirectoryStep::Keep);
    assert_eq!(directory_step(false, false, false), DirectoryStep::CreateWithParents);
    assert_eq!(directory_step(false, false, true), DirectoryStep::Create);
    assert_eq!(directory_step(true, false, false), DirectoryStep::CreateWithParents);
    assert_eq!(directory_step(true, false, true), DirectoryStep::Create);
}

#[test]
fn default_file_is_written_unless_a_file_is_there() {
    assert!(!needs_default_file(true, true));
    assert!(needs_default_file(true, false));
    assert!(needs_default_file(false, false));
    assert!(needs_default_file(false, true));
}

#[test]
fn configuration_directory_follows_the_environment() {
    assert_eq!(
        config_home(Some("/xdg".to_string()), Some("/home/alice".to_string())),
        Some("/xdg".to_string())
    );
    assert_eq!(config_home(Some("/xdg".to_string()), None), Some("/xdg".to_string()));
    assert_eq!(
        config_home(None, Some("/home/alice".to_string())),
        Some("/home/alice/.config".to_string())
    );
    assert_eq!(config_home(Some(String::new()), Some("/home/alice".to_string())), Some(String::new()));
    assert_eq!(config_home(None, None), None);
}

#[test]
fn files_lie_below_the_configuration_directory() {
    assert_eq!(settings_path("/home/alice/.config"), "/home/alice/.config/cutekit/config.json");
    assert_eq!(stylesheet_path("/home/alice/.config"), "/home/alice/.config/cutekit/style.css");
    assert_eq!(settings_path(""), "/cutekit/config.json");
    assert_eq!(stylesheet_path(""), "/cutekit/style.css");
}
