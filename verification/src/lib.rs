//! A verified request-validation and notification-dispatch pipeline for a
//! single-route push-notification service.
//!
//! The pipeline takes an incoming HTTP request already reduced to plain
//! values (method, `x-api-key` header, raw body), checks the shared-secret
//! header, branches on the method, validates the POST payload, and produces
//! either a terminal [`response::HttpResponse`] or an instruction to the
//! caller: fetch the stored recipient tokens, or dispatch a built
//! notification. The caller performs the datastore query and the push-service
//! send (both network calls) and feeds each result back into the pipeline,
//! which maps it to the final response.

pub mod auth;
pub mod message;
pub mod payload;
pub mod pipeline;
pub mod response;
pub mod token;
