pub mod crud_operations;
pub mod find_roaming_partners;
pub mod get_operators_by_e212_count;
pub mod group_operators_by_iso3;
pub mod network_names;
