//! Records of the relational store and the session store.

pub mod db_result;
pub mod redis;
