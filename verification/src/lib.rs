//! A minimal client layer for the Telegram Bot HTTP API.
//!
//! A [`send::sending`] value names one of six operations (send, delete,
//! reply, edit, and two photo uploads). The library builds the request each
//! operation stands for (its URL, and for photos the multipart payload) and
//! decodes the service's reply into the optional message identifier it
//! carries. The HTTP exchange itself is left to the caller.

pub mod digits;
pub mod reply;
pub mod scan;
pub mod send;
