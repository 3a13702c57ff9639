//! Job orchestration for a media platform: dispatch of processing jobs to
//! worker servers, webhook signature checks and status application, and the
//! persisted scheduler that sweeps the enabled collection sources.
//!
//! The library talks to no store, worker or collector. Each operation that
//! needs one is written as a chain of steps: a step takes what the outside
//! world answered and says what to write or whom to call next. The stores
//! held in memory (`processing_service`, `task_manager`) carry the same
//! steps out on plain lists and give the writes their meaning.
//!
//! Texts are compared and built in `text`, signatures in `signature`; the
//! remaining modules hold the rules of storage uploads, galleries, paging
//! and access.

pub mod text;
pub mod search;
pub mod recent;
pub mod paging;
pub mod signature;
pub mod models;
pub mod dto;
pub mod error;
pub mod clock;
pub mod object_id;
pub mod job_updates;
pub mod dispatch;
pub mod webhook;
pub mod processing_service;
pub mod scheduled_task;
pub mod collection_pass;
pub mod scheduler_steps;
pub mod task_manager;
pub mod task_status;
pub mod storage_service;
pub mod image_handlers;
pub mod auth;
