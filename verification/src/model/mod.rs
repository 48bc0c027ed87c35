//! The stored entities and the owner scoping of what the store hands back.

pub mod bar;
pub mod ingredient;
pub mod media;
pub mod unit;
pub mod user;

pub use crate::model::bar::{BarModel, CreateBarSchema};
pub use crate::model::ingredient::{
    CreateIngredientSchema, IngredientModel, SubIngredientModel, SubIngredientRow,
};
pub use crate::model::media::{MediaModel, UpdateMediaSchema};
pub use crate::model::unit::UnitModel;
pub use crate::model::user::UserModel;
