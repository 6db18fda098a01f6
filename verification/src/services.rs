//! The operations of the service, each as the opening of a conversation
//! with the store.

pub mod broker_service;
pub mod todo_service;
