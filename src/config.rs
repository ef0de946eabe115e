use vstd::prelude::*;

verus! {

/// Site settings read at start-up.
#[derive(Debug)]
pub struct SystemConfig {
    /// Directory scanned for modules at start-up.
    pub plugin_dir: String,
    pub upload_dir: String,
    pub upload_route: String,
    pub session_name: String,
    pub robots_txt_path: String,
    /// Request header that carries the visitor's address behind a proxy.
    pub real_ip_header: Option<String>,
    pub csrf_cookie_name: Option<String>,
    pub csrf_field_name: String,
    pub is_prod: bool,
    /// Identity of the theme that renders pages; when no loaded theme has
    /// it, the built-in renderer is used.
    pub theme_name: String,
}

} // verus!
