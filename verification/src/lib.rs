pub mod action;
pub mod client;
pub mod connservice;
pub mod datagram;
pub mod eventqueue;
pub mod group;
pub mod handler_laws;
pub mod imserver;
pub mod laws;
pub mod login;
pub mod logout;
pub mod message;
pub mod mqserver;
pub mod pingpong;
pub mod procommand;
pub mod promessage;
pub mod propingpong;
pub mod recefromclient;
pub mod send;
pub mod sendtoclient;
