use vstd::prelude::*;

verus! {

/// Configuration for the application. It is read when the application starts
/// and not changed afterwards.
#[derive(Debug, Clone)]
pub struct AppConfig {
    pub window_title: String,
    pub window_width: u32,
    pub window_height: u32,
    pub vsync: bool,
}

/// What an [`AppConfig`] holds, with the title as a sequence of characters.
pub struct AppConfigView {
    pub window_title: Seq<char>,
    pub window_width: u32,
    pub window_height: u32,
    pub vsync: bool,
}

impl View for AppConfig {
    type V = AppConfigView;

    open spec fn view(&self) -> AppConfigView {
        AppConfigView {
            window_title: self.window_title@,
            window_width: self.window_width,
            window_height: self.window_height,
            vsync: self.vsync,
        }
    }
}

/// The configuration that is used where none is given: a window of 800 by
/// 600 pixels with vertical sync.
pub open spec fn default_config_view() -> AppConfigView {
    AppConfigView {
        window_title: "ASN WGPU Application"@,
        window_width: 800,
        window_height: 600,
        vsync: true,
    }
}

impl Default for AppConfig {
    fn default() -> (config: Self)
        ensures
            config@ == default_config_view(),
    {
        AppConfig {
            window_title: "ASN WGPU Application".to_owned(),
            window_width: 800,
            window_height: 600,
            vsync: true,
        }
    }
}

/// Creates a default application configuration.
pub fn default_config() -> (config: AppConfig)
    ensures
        config@ == default_config_view(),
{
    AppConfig::default()
}

/// Creates a custom application configuration. No value is checked here: a
/// size that is too small is rejected when the rendering context is built.
pub fn custom_config(title: &str, width: u32, height: u32, vsync: bool) -> (config: AppConfig)
    ensures
        config@ == (AppConfigView {
            window_title: title@,
            window_width: width,
            window_height: height,
            vsync,
        }),
{
    AppConfig { window_title: title.to_owned(), window_width: width, window_height: height, vsync }
}

} // verus!
