pub mod annasarchive;
pub mod asianovel;
pub mod clean;
pub mod content;
pub mod dom;
pub mod fetch;
pub mod json;
pub mod madara;
pub mod madara_chapters;
pub mod madara_details;
pub mod models;
pub mod novelarchive;
pub mod novelbins;
pub mod novelbuddy;
pub mod novelfire;
pub mod novelupdates;
pub mod readnovelfull;
pub mod snap;
pub mod sort;
pub mod sources;
pub mod text;
pub mod urls;
pub mod words;
