//! Life areas as the user interface sees them.

use vstd::prelude::*;

verus! {

/// A life area with its place in the order of life areas.
#[derive(Debug)]
pub struct LifeArea {
    pub id: String,
    pub name: String,
    pub description: Option<String>,
    pub color: String,
    pub icon: Option<String>,
    pub order_index: i32,
    pub created_at: i64,
    pub updated_at: i64,
}

/// The request to create a life area.
#[derive(Debug)]
pub struct CreateLifeAreaDto {
    pub name: String,
    pub description: Option<String>,
    pub color: String,
}

/// The request to change a life area; an absent field stays as it is.
#[derive(Debug)]
pub struct UpdateLifeAreaDto {
    pub name: Option<String>,
    pub description: Option<String>,
    pub color: Option<String>,
    pub order_index: Option<i32>,
}

impl Default for UpdateLifeAreaDto {
    fn default() -> (dto: Self)
        ensures
            dto.name is None,
            dto.description is None,
            dto.color is None,
            dto.order_index is None,
    {
        UpdateLifeAreaDto { name: None, description: None, color: None, order_index: None }
    }
}

} // verus!
