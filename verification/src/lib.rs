//! Pull allocation and banner state for a five-slot gacha machine.
//!
//! An order carries a quota of single and bulk summons. Each summon is a
//! banner of five slots, filled at creation by a weighted draw among the
//! products that are in stock, and revealed slot by slot. What is left of a
//! quota is always derived from the banners themselves.
//!
//! - `product`, `pool`, `inventory`: the catalog's products and tickets, and
//!   the stock report that says what can be drawn.
//! - `sampler`, `catalog`, `distribution`: the weighted draw, with and
//!   without replacement, and the chances that the weights give.
//! - `banner`, `pulls_data`: a summon, and the summons of an order with the
//!   rules by which one follows another.
//! - `message`, `row`, `shop`, `order_number`, `text`, `error`: what an order
//!   is shown, how it is kept on a sheet, and what the shop says of it.
//!
//! Every function is verified against its contract. Three functions call
//! code that is not: the random draw, the reading of a number, and the
//! naming of a cell. Their contracts are stated where they stand.

pub mod error;
pub mod pool;
pub mod text;
pub mod order_number;
pub mod product;
pub mod inventory;
pub mod sampler;
pub mod banner;
pub mod catalog;
pub mod distribution;
pub mod pulls_data;
pub mod message;
pub mod shop;
pub mod row;
