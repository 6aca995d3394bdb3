pub mod clean_empty_tags;
