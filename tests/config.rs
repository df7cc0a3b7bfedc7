use server::config::{
    config_dir_path, config_file_path, config_template, home_directory, servers_dir,
    servers_dir_from, ConfigError, ConfigField,
};

fn home(h: &str) -> Option<String> {
    Some(h.to_string())
}

#[test]
fn servers_dir_is_read_from_the_config() {
    assert_eq!(servers_dir("servers_dir = \"/srv/envs/\"\n", &home("/home/u")), Ok("/srv/envs/".to_string()));
    assert_eq!(servers_dir("other = 1\nservers_dir = \"rel/\"", &None), Ok("rel/".to_string()));
}

#[test]
fn servers_dir_is_home_expanded() {
    assert_eq!(servers_dir("servers_dir = \"~/envs/\"", &home("/home/u")), Ok("/home/u/envs/".to_string()));
    assert_eq!(servers_dir("servers_dir = \"~\"", &home("/home/u")), Ok("/home/u".to_string()));
    assert_eq!(servers_dir("servers_dir = \"~/envs/\"", &None), Ok("~/envs/".to_string()));
    assert_eq!(servers_dir("servers_dir = \"~user/envs/\"", &home("/home/u")), Ok("~user/envs/".to_string()));
}

#[test]
fn config_errors() {
    assert_eq!(servers_dir("servers_dir = ", &None), Err(ConfigError::InvalidConfig));
    assert_eq!(servers_dir("[unclosed", &None), Err(ConfigError::InvalidConfig));
    assert_eq!(servers_dir("dir = \"/x/\"", &None), Err(ConfigError::MissingServersDir));
    assert_eq!(servers_dir("servers_dir = 5", &None), Err(ConfigError::NotAString));
    assert_eq!(servers_dir("", &None), Err(ConfigError::MissingServersDir));
}

#[test]
fn servers_dir_from_fields() {
    assert_eq!(servers_dir_from(ConfigField::Text("/a/".to_string())), Ok("/a/".to_string()));
    assert_eq!(servers_dir_from(ConfigField::Absent), Err(ConfigError::MissingServersDir));
    assert_eq!(servers_dir_from(ConfigField::Other), Err(ConfigError::NotAString));
}

#[test]
fn template_holds_one_recognized_key() {
    let template = config_template();
    assert_eq!(template, "servers_dir = \"~/Tools/mage-db-sync-databases/\"\n");
    assert_eq!(template.lines().count(), 1);
    assert_eq!(
        servers_dir(&template, &home("/home/u")),
        Ok("/home/u/Tools/mage-db-sync-databases/".to_string())
    );
}

#[test]
fn config_paths_are_under_home() {
    assert_eq!(config_file_path(&home("/home/u")), "/home/u/.config/server/config.toml");
    assert_eq!(config_file_path(&None), "~/.config/server/config.toml");
    assert_eq!(config_dir_path(&home("/home/u")), "/home/u/.config/server/");
    assert_eq!(config_dir_path(&None), "~/.config/server/");
}

#[test]
fn home_directory_is_never_a_bare_tilde() {
    if let Some(h) = home_directory() {
        assert_ne!(h, "~");
        assert!(!h.is_empty());
    }
}
