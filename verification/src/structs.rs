//! Plain structs with methods: a demo user account and a rectangle.

use vstd::prelude::*;

verus! {

/// Account information for a demo user.
#[derive(Debug)]
pub struct User {
    pub username: String,
    pub email: String,
    pub sign_in_count: u64,
    pub active: bool,
}

/// Builds a `User` from its parts; the new account is always active.
pub fn build_user_using_field_init_shorthands(email: String, username: String, count: u64) -> (u:
    User)
    ensures
        u.email == email,
        u.username == username,
        u.sign_in_count == count,
        u.active,
{
    User { username, email, sign_in_count: count, active: true }
}

/// An axis-aligned rectangle measured in whole pixels.
#[derive(Debug)]
pub struct Rectangle {
    pub width: u32,
    pub height: u32,
}

impl Rectangle {
    /// Area of the rectangle in square pixels.
    pub fn area(&self) -> (a: u32)
        requires
            self.width * self.height <= u32::MAX,
        ensures
            a == self.width * self.height,
    {
        self.width * self.height
    }

    /// Perimeter of the rectangle in pixels.
    pub fn perimeter(&self) -> (p: u32)
        requires
            (self.width + self.height) * 2 <= u32::MAX,
        ensures
            p == (self.width + self.height) * 2,
    {
        (self.width + self.height) * 2
    }

    /// True exactly when `other` fits strictly inside `self` in both
    /// dimensions.
    pub fn can_hold(&self, other: &Rectangle) -> (r: bool)
        ensures
            r == (self.width > other.width && self.height > other.height),
    {
        self.width > other.width && self.height > other.height
    }

    /// Resets both dimensions to zero.
    pub fn initialize(&mut self)
        ensures
            final(self).width == 0,
            final(self).height == 0,
    {
        self.width = 0;
        self.height = 0;
    }

    /// A square with the given side length.
    pub fn square(size: u32) -> (r: Rectangle)
        ensures
            r.width == size,
            r.height == size,
    {
        Rectangle { width: size, height: size }
    }
}

impl Rectangle {
    /// Consumes the rectangle and returns its dimensions as a pair.
    pub fn transform_and_consume(self) -> (r: (u32, u32))
        ensures
            r.0 == self.width,
            r.1 == self.height,
    {
        return (self.width, self.height);
    }
}

} // verus!
