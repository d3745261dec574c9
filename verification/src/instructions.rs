pub mod realbox_vault;
pub mod realbox_vault_factory;
