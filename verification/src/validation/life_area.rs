//! The checks on requests about life areas.

use vstd::prelude::*;
use crate::database::models::life_area::{CreateLifeAreaDto, UpdateLifeAreaDto};
use crate::text::opt_view;
use crate::validation::{
    color_fault, description_fault, field_fault, first_fault, name_fault, validate_description,
    validate_hex_color, validate_name, Fault, ValidateDto, ValidationError, MAX_DESCRIPTION_LENGTH,
};

verus! {

/// The fault of a name that may be absent.
pub open spec fn optional_name_fault(name: Option<String>) -> Option<Fault> {
    match name {
        Some(n) => name_fault(n@),
        None => None,
    }
}

/// The fault of a colour that may be absent.
pub open spec fn optional_color_fault(color: Option<String>) -> Option<Fault> {
    match color {
        Some(c) => color_fault(c@),
        None => None,
    }
}

/// The fault of a position in the order of life areas.
pub open spec fn order_index_fault(order_index: Option<i32>) -> Option<Fault> {
    if order_index matches Some(i) && i < 0 {
        field_fault("order_index"@, "must be a non-negative number"@)
    } else {
        None
    }
}

/// The fault of a request to change something that names no field.
pub open spec fn nothing_to_update(nothing: bool) -> Option<Fault> {
    if nothing {
        Some(Fault::Failed { message: "At least one field must be provided for update"@ })
    } else {
        None
    }
}

/// Checks a name that may be absent.
pub fn validate_optional_name(name: &Option<String>) -> (r: Result<(), ValidationError>)
    ensures
        crate::validation::reports(r, optional_name_fault(*name)),
{
    match name {
        Some(n) => validate_name(n.as_str()),
        None => Ok(()),
    }
}

/// Checks that a request to change something names a field.
pub fn validate_something_to_update(nothing: bool) -> (r: Result<(), ValidationError>)
    ensures
        crate::validation::reports(r, nothing_to_update(nothing)),
{
    if nothing {
        Err(ValidationError::failed("At least one field must be provided for update"))
    } else {
        Ok(())
    }
}

impl ValidateDto for CreateLifeAreaDto {
    open spec fn fault_at(&self, now: i64) -> Option<Fault> {
        first_fault(
            name_fault(self.name@),
            first_fault(
                description_fault(opt_view(self.description), MAX_DESCRIPTION_LENGTH as nat),
                color_fault(self.color@),
            ),
        )
    }

    fn validate_at(&self, now: i64) -> (r: Result<(), ValidationError>) {
        validate_name(self.name.as_str())?;
        validate_description(&self.description, MAX_DESCRIPTION_LENGTH)?;
        validate_hex_color(self.color.as_str())?;
        Ok(())
    }

    fn validate(&self) -> (r: Result<(), ValidationError>) {
        let r = self.validate_at(0);
        assert(crate::validation::reports(r, self.fault_at(0)));
        r
    }
}

impl ValidateDto for UpdateLifeAreaDto {
    open spec fn fault_at(&self, now: i64) -> Option<Fault> {
        first_fault(
            optional_name_fault(self.name),
            first_fault(
                description_fault(opt_view(self.description), MAX_DESCRIPTION_LENGTH as nat),
                first_fault(
                    optional_color_fault(self.color),
                    first_fault(
                        order_index_fault(self.order_index),
                        nothing_to_update(
                            self.name is None && self.description is None && self.color is None
                                && self.order_index is None,
                        ),
                    ),
                ),
            ),
        )
    }

    fn validate_at(&self, now: i64) -> (r: Result<(), ValidationError>) {
        validate_optional_name(&self.name)?;
        validate_description(&self.description, MAX_DESCRIPTION_LENGTH)?;
        match &self.color {
            Some(color) => {
                validate_hex_color(color.as_str())?;
            },
            None => {},
        }
        match self.order_index {
            Some(order_index) => {
                if order_index < 0 {
                    return Err(ValidationError::field("order_index", "must be a non-negative number"));
                }
            },
            None => {},
        }
        validate_something_to_update(
            self.name.is_none() && self.description.is_none() && self.color.is_none()
                && self.order_index.is_none(),
        )
    }

    fn validate(&self) -> (r: Result<(), ValidationError>) {
        let r = self.validate_at(0);
        assert(crate::validation::reports(r, self.fault_at(0)));
        r
    }
}

} // verus!
