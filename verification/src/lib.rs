//! Order and cart management: the request routing, access rules, query
//! building and order/cart bookkeeping of the orders service.

pub mod text;
pub mod types;
pub mod routing;
pub mod errors;
pub mod acl;
pub mod sql;
pub mod cart;
pub mod cart_model;
pub mod cart_repo;
pub mod cart_service;
pub mod order;
pub mod order_service;
pub mod order_plan;
pub mod order_model;
pub mod controller;
pub mod config;
pub mod ups;
pub mod loaders;
pub mod product;
pub mod util;

