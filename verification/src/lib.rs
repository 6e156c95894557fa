//! A weather alert service, verified.
//!
//! Users register with a home city and set alerting preferences: bounds on
//! the temperature and switches for rain, snow and storm. On every pass the
//! service fetches the current weather of every city that has a user, stores
//! the observation, evaluates the preferences of every user of the city
//! against it and emails an alert where a rule fires.
//!
//! The library holds the rules and the state of the service: the alert rules
//! (`alerts`), the store with its laws (`db`, `store`), one pass as a machine
//! that is driven from outside (`pipeline`, `pass`) with the proof of what it
//! sends (`isolation`), what the API answers (`handlers`), and what is asked
//! of and handed to the weather provider (`weather`) and the mail relay
//! (`email`). Every function is verified against its contract. Sockets,
//! files, clocks that tick and tasks that run belong to the program around
//! the library.
pub mod alerts;
pub mod config;
pub mod db;
pub mod email;
pub mod error;
pub mod fresh;
pub mod handlers;
pub mod isolation;
pub mod models;
pub mod pass;
pub mod pipeline;
pub mod schedule;
pub mod store;
pub mod templates;
pub mod text;
pub mod validation;
pub mod weather;
