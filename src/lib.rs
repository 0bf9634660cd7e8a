//! A minimal client for the W3C WebDriver protocol.
//!
//! The library decides what each protocol operation sends and what each
//! reply means; the caller carries the HTTP exchange itself and hands the
//! outcome back.
pub mod json;
pub mod locator;
pub mod webdriver;
