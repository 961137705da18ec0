//! From a DOM taint finding (source, sink) to a reproducible proof of concept.
pub mod bootstrap;
pub mod external;
pub mod hints;
pub mod html;
pub mod poc;
pub mod poc_url;

pub use bootstrap::has_self_bootstrap_verification;
pub use external::extract_external_script_urls;
pub use hints::build_dom_xss_manual_poc_hint;
pub use html::{extract_javascript_from_html, extract_script_element_ids};
pub use poc::generate_dom_xss_poc;
pub use poc_url::build_dom_xss_poc_url;
