pub mod history;
pub mod model_config;
pub mod prompt_template;
pub mod settings;
pub mod statement;
