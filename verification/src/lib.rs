pub mod text;
pub mod media;
pub mod attention;
pub mod items;
pub mod contacts;
pub mod activity;
pub mod dismissed;
pub mod clock;
pub mod phone;
pub mod vehicle;
pub mod home;
pub mod player;
pub mod always_show;
pub mod profiles;
pub mod people;
pub mod overview;
pub mod device;
pub mod agent;
pub mod footer;
pub mod link_forms;
