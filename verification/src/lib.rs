mod host;
mod json;
mod loader;
mod menu;
mod nodes;
mod schema;
mod settings;
pub mod terminal;
mod text;
mod types;

pub use host::Host;
pub use json::{JsonData, JsonValue};
pub use json::parse_json;
pub use loader::{load, load_from_str, ConfigError, ConfigSource, LoadError};
pub use menu::{build_menu, configure_plan, dispatch_menu_id, is_terminal_editor, menu_commands, ConfigurePlan, MenuAction, MenuEntry, MenuPlan, MENU_ID_ACTION_PREFIX, MENU_ID_CONFIGURE, MENU_ID_HOST_PREFIX, MENU_ID_QUIT, MENU_ID_RELOAD};
pub use nodes::{Node, NodeId, Nodes};
pub use settings::{default_document, HostSource, Settings, SettingsError};
pub use schema::{schema, validate, format_validation_errors, ValidationError, ValidationResult};
pub use types::{Action, Config, Entry, Group};
