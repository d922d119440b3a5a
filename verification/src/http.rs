//! What a viewer of the received messages is shown.

pub mod http_html_service;
