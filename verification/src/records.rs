//! The position record family and its conversion lattice.
//!
//! [`LineColByteRange`] is the maximal record: line, column and byte range of
//! one character. Every other record holds a subset of its fields, and every
//! narrowing is a `From` conversion whose meaning is stated through
//! `vstd`'s `FromSpec`, so verified callers know exactly which fields each
//! conversion keeps. Tuples of one through six record shapes convert as well,
//! each slot independently projected from the same maximal record.

use vstd::prelude::*;
use vstd::std_specs::convert::FromSpec;
use vstd::std_specs::convert::FromSpecImpl;

verus! {

/// `Line(line)`: a 1-indexed line number.
#[derive(PartialEq, Eq, Structural, Hash, Clone, Copy, Debug)]
pub struct Line(pub usize);

/// `Col(col)`: a 1-indexed column number, counting scalar values since the
/// start of the line.
#[derive(PartialEq, Eq, Structural, Hash, Clone, Copy, Debug)]
pub struct Col(pub usize);

/// `ByteStart(byte_start)`: the inclusive start byte offset of a character.
#[derive(PartialEq, Eq, Structural, Hash, Clone, Copy, Debug)]
pub struct ByteStart(pub usize);

/// `ByteEnd(byte_end)`: the exclusive end byte offset of a character.
#[derive(PartialEq, Eq, Structural, Hash, Clone, Copy, Debug)]
pub struct ByteEnd(pub usize);

/// `ByteRange(byte_start, byte_end)`: the half-open byte range a character
/// occupies, start inclusive, end exclusive.
#[derive(PartialEq, Eq, Structural, Hash, Clone, Copy, Debug)]
pub struct ByteRange(pub usize, pub usize);

/// `LineCol(line, col)`: 1-indexed line and column.
#[derive(PartialEq, Eq, Structural, Hash, Clone, Copy, Debug)]
pub struct LineCol(pub usize, pub usize);

/// `LineColByte(line, col, byte_start)`: 1-indexed line and column, and the
/// inclusive start byte offset.
#[derive(PartialEq, Eq, Structural, Hash, Clone, Copy, Debug)]
pub struct LineColByte(pub usize, pub usize, pub usize);

/// `LineColByteRange(line, col, byte_range)`: the maximal record, from which
/// every other shape is projected.
#[derive(PartialEq, Eq, Structural, Hash, Clone, Copy, Debug)]
pub struct LineColByteRange(pub usize, pub usize, pub ByteRange);

impl ByteRange {
    /// The inclusive start byte offset.
    pub fn start(&self) -> (r: usize)
        ensures
            r == self.0,
    {
        self.0
    }

    /// The exclusive end byte offset.
    pub fn end(&self) -> (r: usize)
        ensures
            r == self.1,
    {
        self.1
    }
}

impl LineCol {
    /// The 1-indexed line number.
    pub fn line(&self) -> (r: usize)
        ensures
            r == self.0,
    {
        self.0
    }

    /// The 1-indexed column number.
    pub fn column(&self) -> (r: usize)
        ensures
            r == self.1,
    {
        self.1
    }
}

impl LineColByte {
    /// The 1-indexed line number.
    pub fn line(&self) -> (r: usize)
        ensures
            r == self.0,
    {
        self.0
    }

    /// The 1-indexed column number.
    pub fn column(&self) -> (r: usize)
        ensures
            r == self.1,
    {
        self.1
    }

    /// The start byte offset. Inclusive.
    pub fn byte_start(&self) -> (r: usize)
        ensures
            r == self.2,
    {
        self.2
    }
}

impl LineColByteRange {
    /// The 1-indexed line number.
    pub fn line(&self) -> (r: usize)
        ensures
            r == self.0,
    {
        self.0
    }

    /// The 1-indexed column number.
    pub fn column(&self) -> (r: usize)
        ensures
            r == self.1,
    {
        self.1
    }

    /// The start byte offset. Inclusive.
    pub fn byte_start(&self) -> (r: usize)
        ensures
            r == self.2.0,
    {
        self.2.0
    }

    /// The end byte offset. Exclusive.
    pub fn byte_end(&self) -> (r: usize)
        ensures
            r == self.2.1,
    {
        self.2.1
    }

    /// The byte range the character occupies.
    pub fn byte_range(&self) -> (r: ByteRange)
        ensures
            r == self.2,
    {
        self.2
    }
}

/// A record shape the position tracker can be asked for.
///
/// An implementor is a total, deterministic projection of the maximal record:
/// [`Project::projected`] says which of its fields the shape reports, and
/// [`Project::project`] computes exactly that value.
pub trait Project: Sized {
    /// The value this shape reports for the maximal record `pos`.
    spec fn projected(pos: LineColByteRange) -> Self;

    /// Narrow the maximal record to this shape.
    fn project(pos: LineColByteRange) -> (r: Self)
        ensures
            r == Self::projected(pos),
    ;
}

impl Project for Line {
    open spec fn projected(pos: LineColByteRange) -> Line {
        Line(pos.0)
    }

    fn project(pos: LineColByteRange) -> Line {
        Line(pos.0)
    }
}

impl Project for Col {
    open spec fn projected(pos: LineColByteRange) -> Col {
        Col(pos.1)
    }

    fn project(pos: LineColByteRange) -> Col {
        Col(pos.1)
    }
}

impl Project for ByteStart {
    open spec fn projected(pos: LineColByteRange) -> ByteStart {
        ByteStart(pos.2.0)
    }

    fn project(pos: LineColByteRange) -> ByteStart {
        ByteStart(pos.2.0)
    }
}

impl Project for ByteEnd {
    open spec fn projected(pos: LineColByteRange) -> ByteEnd {
        ByteEnd(pos.2.1)
    }

    fn project(pos: LineColByteRange) -> ByteEnd {
        ByteEnd(pos.2.1)
    }
}

impl Project for ByteRange {
    open spec fn projected(pos: LineColByteRange) -> ByteRange {
        pos.2
    }

    fn project(pos: LineColByteRange) -> ByteRange {
        pos.2
    }
}

impl Project for LineCol {
    open spec fn projected(pos: LineColByteRange) -> LineCol {
        LineCol(pos.0, pos.1)
    }

    fn project(pos: LineColByteRange) -> LineCol {
        LineCol(pos.0, pos.1)
    }
}

impl Project for LineColByte {
    open spec fn projected(pos: LineColByteRange) -> LineColByte {
        LineColByte(pos.0, pos.1, pos.2.0)
    }

    fn project(pos: LineColByteRange) -> LineColByte {
        LineColByte(pos.0, pos.1, pos.2.0)
    }
}

impl Project for LineColByteRange {
    open spec fn projected(pos: LineColByteRange) -> LineColByteRange {
        pos
    }

    fn project(pos: LineColByteRange) -> LineColByteRange {
        pos
    }
}

impl Project for usize {
    open spec fn projected(pos: LineColByteRange) -> usize {
        pos.2.0
    }

    fn project(pos: LineColByteRange) -> usize {
        pos.2.0
    }
}

impl<A> Project for (A,) where A: Project {
    open spec fn projected(pos: LineColByteRange) -> (A,) {
        (A::projected(pos),)
    }

    fn project(pos: LineColByteRange) -> (A,) {
        (A::project(pos),)
    }
}

impl<A, B> Project for (A, B) where A: Project, B: Project {
    open spec fn projected(pos: LineColByteRange) -> (A, B) {
        (A::projected(pos), B::projected(pos))
    }

    fn project(pos: LineColByteRange) -> (A, B) {
        (A::project(pos), B::project(pos))
    }
}

impl<A, B, C> Project for (A, B, C) where A: Project, B: Project, C: Project {
    open spec fn projected(pos: LineColByteRange) -> (A, B, C) {
        (A::projected(pos), B::projected(pos), C::projected(pos))
    }

    fn project(pos: LineColByteRange) -> (A, B, C) {
        (A::project(pos), B::project(pos), C::project(pos))
    }
}

impl<A, B, C, D> Project for (A, B, C, D) where
    A: Project,
    B: Project,
    C: Project,
    D: Project,
 {
    open spec fn projected(pos: LineColByteRange) -> (A, B, C, D) {
        (A::projected(pos), B::projected(pos), C::projected(pos), D::projected(pos))
    }

    fn project(pos: LineColByteRange) -> (A, B, C, D) {
        (A::project(pos), B::project(pos), C::project(pos), D::project(pos))
    }
}

impl<A, B, C, D, E> Project for (A, B, C, D, E) where
    A: Project,
    B: Project,
    C: Project,
    D: Project,
    E: Project,
 {
    open spec fn projected(pos: LineColByteRange) -> (A, B, C, D, E) {
        (
            A::projected(pos),
            B::projected(pos),
            C::projected(pos),
            D::projected(pos),
            E::projected(pos),
        )
    }

    fn project(pos: LineColByteRange) -> (A, B, C, D, E) {
        (A::project(pos), B::project(pos), C::project(pos), D::project(pos), E::project(pos))
    }
}

impl<A, B, C, D, E, F> Project for (A, B, C, D, E, F) where
    A: Project,
    B: Project,
    C: Project,
    D: Project,
    E: Project,
    F: Project,
 {
    open spec fn projected(pos: LineColByteRange) -> (A, B, C, D, E, F) {
        (
            A::projected(pos),
            B::projected(pos),
            C::projected(pos),
            D::projected(pos),
            E::projected(pos),
            F::projected(pos),
        )
    }

    fn project(pos: LineColByteRange) -> (A, B, C, D, E, F) {
        (
            A::project(pos),
            B::project(pos),
            C::project(pos),
            D::project(pos),
            E::project(pos),
            F::project(pos),
        )
    }
}

impl From<LineCol> for Line {
    fn from(pos: LineCol) -> Self {
        Line(pos.0)
    }
}

impl FromSpecImpl<LineCol> for Line {
    open spec fn obeys_from_spec() -> bool {
        true
    }

    open spec fn from_spec(pos: LineCol) -> Line {
        Line(pos.0)
    }
}

impl From<LineCol> for Col {
    fn from(pos: LineCol) -> Self {
        Col(pos.1)
    }
}

impl FromSpecImpl<LineCol> for Col {
    open spec fn obeys_from_spec() -> bool {
        true
    }

    open spec fn from_spec(pos: LineCol) -> Col {
        Col(pos.1)
    }
}

impl From<LineColByte> for Line {
    fn from(pos: LineColByte) -> Self {
        Line(pos.0)
    }
}

impl FromSpecImpl<LineColByte> for Line {
    open spec fn obeys_from_spec() -> bool {
        true
    }

    open spec fn from_spec(pos: LineColByte) -> Line {
        Line(pos.0)
    }
}

impl From<LineColByte> for Col {
    fn from(pos: LineColByte) -> Self {
        Col(pos.1)
    }
}

impl FromSpecImpl<LineColByte> for Col {
    open spec fn obeys_from_spec() -> bool {
        true
    }

    open spec fn from_spec(pos: LineColByte) -> Col {
        Col(pos.1)
    }
}

impl From<LineColByte> for LineCol {
    fn from(pos: LineColByte) -> Self {
        LineCol(pos.0, pos.1)
    }
}

impl FromSpecImpl<LineColByte> for LineCol {
    open spec fn obeys_from_spec() -> bool {
        true
    }

    open spec fn from_spec(pos: LineColByte) -> LineCol {
        LineCol(pos.0, pos.1)
    }
}

impl From<LineColByteRange> for Line {
    fn from(pos: LineColByteRange) -> Self {
        Line(pos.0)
    }
}

impl FromSpecImpl<LineColByteRange> for Line {
    open spec fn obeys_from_spec() -> bool {
        true
    }

    open spec fn from_spec(pos: LineColByteRange) -> Line {
        Line(pos.0)
    }
}

impl From<LineColByteRange> for Col {
    fn from(pos: LineColByteRange) -> Self {
        Col(pos.1)
    }
}

impl FromSpecImpl<LineColByteRange> for Col {
    open spec fn obeys_from_spec() -> bool {
        true
    }

    open spec fn from_spec(pos: LineColByteRange) -> Col {
        Col(pos.1)
    }
}

impl From<LineColByteRange> for ByteStart {
    fn from(pos: LineColByteRange) -> Self {
        ByteStart(pos.2.0)
    }
}

impl FromSpecImpl<LineColByteRange> for ByteStart {
    open spec fn obeys_from_spec() -> bool {
        true
    }

    open spec fn from_spec(pos: LineColByteRange) -> ByteStart {
        ByteStart(pos.2.0)
    }
}

impl From<LineColByteRange> for ByteEnd {
    fn from(pos: LineColByteRange) -> Self {
        ByteEnd(pos.2.1)
    }
}

impl FromSpecImpl<LineColByteRange> for ByteEnd {
    open spec fn obeys_from_spec() -> bool {
        true
    }

    open spec fn from_spec(pos: LineColByteRange) -> ByteEnd {
        ByteEnd(pos.2.1)
    }
}

impl From<LineColByteRange> for ByteRange {
    fn from(pos: LineColByteRange) -> Self {
        pos.2
    }
}

impl FromSpecImpl<LineColByteRange> for ByteRange {
    open spec fn obeys_from_spec() -> bool {
        true
    }

    open spec fn from_spec(pos: LineColByteRange) -> ByteRange {
        pos.2
    }
}

impl From<LineColByteRange> for LineCol {
    fn from(pos: LineColByteRange) -> Self {
        LineCol(pos.0, pos.1)
    }
}

impl FromSpecImpl<LineColByteRange> for LineCol {
    open spec fn obeys_from_spec() -> bool {
        true
    }

    open spec fn from_spec(pos: LineColByteRange) -> LineCol {
        LineCol(pos.0, pos.1)
    }
}

impl From<LineColByteRange> for LineColByte {
    fn from(pos: LineColByteRange) -> Self {
        LineColByte(pos.0, pos.1, pos.2.0)
    }
}

impl FromSpecImpl<LineColByteRange> for LineColByte {
    open spec fn obeys_from_spec() -> bool {
        true
    }

    open spec fn from_spec(pos: LineColByteRange) -> LineColByte {
        LineColByte(pos.0, pos.1, pos.2.0)
    }
}

impl From<LineColByteRange> for usize {
    fn from(pos: LineColByteRange) -> Self {
        pos.2.0
    }
}

impl FromSpecImpl<LineColByteRange> for usize {
    open spec fn obeys_from_spec() -> bool {
        true
    }

    open spec fn from_spec(pos: LineColByteRange) -> usize {
        pos.2.0
    }
}

impl From<ByteStart> for usize {
    fn from(pos: ByteStart) -> Self {
        pos.0
    }
}

impl FromSpecImpl<ByteStart> for usize {
    open spec fn obeys_from_spec() -> bool {
        true
    }

    open spec fn from_spec(pos: ByteStart) -> usize {
        pos.0
    }
}

impl From<ByteEnd> for usize {
    fn from(pos: ByteEnd) -> Self {
        pos.0
    }
}

impl FromSpecImpl<ByteEnd> for usize {
    open spec fn obeys_from_spec() -> bool {
        true
    }

    open spec fn from_spec(pos: ByteEnd) -> usize {
        pos.0
    }
}

impl<A> From<LineColByteRange> for (A,) where A: From<LineColByteRange> {
    fn from(pos: LineColByteRange) -> Self {
        (A::from(pos),)
    }
}

impl<A> FromSpecImpl<LineColByteRange> for (A,) where A: From<LineColByteRange> {
    open spec fn obeys_from_spec() -> bool {
        A::obeys_from_spec()
    }

    open spec fn from_spec(pos: LineColByteRange) -> (A,) {
        (A::from_spec(pos),)
    }
}

impl<A, B> From<LineColByteRange> for (A, B) where
    A: From<LineColByteRange>,
    B: From<LineColByteRange>,
 {
    fn from(pos: LineColByteRange) -> Self {
        (A::from(pos), B::from(pos))
    }
}

impl<A, B> FromSpecImpl<LineColByteRange> for (A, B) where
    A: From<LineColByteRange>,
    B: From<LineColByteRange>,
 {
    open spec fn obeys_from_spec() -> bool {
        A::obeys_from_spec() && B::obeys_from_spec()
    }

    open spec fn from_spec(pos: LineColByteRange) -> (A, B) {
        (A::from_spec(pos), B::from_spec(pos))
    }
}

impl<A, B, C> From<LineColByteRange> for (A, B, C) where
    A: From<LineColByteRange>,
    B: From<LineColByteRange>,
    C: From<LineColByteRange>,
 {
    fn from(pos: LineColByteRange) -> Self {
        (A::from(pos), B::from(pos), C::from(pos))
    }
}

impl<A, B, C> FromSpecImpl<LineColByteRange> for (A, B, C) where
    A: From<LineColByteRange>,
    B: From<LineColByteRange>,
    C: From<LineColByteRange>,
 {
    open spec fn obeys_from_spec() -> bool {
        A::obeys_from_spec() && B::obeys_from_spec() && C::obeys_from_spec()
    }

    open spec fn from_spec(pos: LineColByteRange) -> (A, B, C) {
        (A::from_spec(pos), B::from_spec(pos), C::from_spec(pos))
    }
}

impl<A, B, C, D> From<LineColByteRange> for (A, B, C, D) where
    A: From<LineColByteRange>,
    B: From<LineColByteRange>,
    C: From<LineColByteRange>,
    D: From<LineColByteRange>,
 {
    fn from(pos: LineColByteRange) -> Self {
        (A::from(pos), B::from(pos), C::from(pos), D::from(pos))
    }
}

impl<A, B, C, D> FromSpecImpl<LineColByteRange> for (A, B, C, D) where
    A: From<LineColByteRange>,
    B: From<LineColByteRange>,
    C: From<LineColByteRange>,
    D: From<LineColByteRange>,
 {
    open spec fn obeys_from_spec() -> bool {
        A::obeys_from_spec() && B::obeys_from_spec() && C::obeys_from_spec()
            && D::obeys_from_spec()
    }

    open spec fn from_spec(pos: LineColByteRange) -> (A, B, C, D) {
        (A::from_spec(pos), B::from_spec(pos), C::from_spec(pos), D::from_spec(pos))
    }
}

impl<A, B, C, D, E> From<LineColByteRange> for (A, B, C, D, E) where
    A: From<LineColByteRange>,
    B: From<LineColByteRange>,
    C: From<LineColByteRange>,
    D: From<LineColByteRange>,
    E: From<LineColByteRange>,
 {
    fn from(pos: LineColByteRange) -> Self {
        (A::from(pos), B::from(pos), C::from(pos), D::from(pos), E::from(pos))
    }
}

impl<A, B, C, D, E> FromSpecImpl<LineColByteRange> for (A, B, C, D, E) where
    A: From<LineColByteRange>,
    B: From<LineColByteRange>,
    C: From<LineColByteRange>,
    D: From<LineColByteRange>,
    E: From<LineColByteRange>,
 {
    open spec fn obeys_from_spec() -> bool {
        A::obeys_from_spec() && B::obeys_from_spec() && C::obeys_from_spec()
            && D::obeys_from_spec() && E::obeys_from_spec()
    }

    open spec fn from_spec(pos: LineColByteRange) -> (A, B, C, D, E) {
        (
            A::from_spec(pos),
            B::from_spec(pos),
            C::from_spec(pos),
            D::from_spec(pos),
            E::from_spec(pos),
        )
    }
}

impl<A, B, C, D, E, F> From<LineColByteRange> for (A, B, C, D, E, F) where
    A: From<LineColByteRange>,
    B: From<LineColByteRange>,
    C: From<LineColByteRange>,
    D: From<LineColByteRange>,
    E: From<LineColByteRange>,
    F: From<LineColByteRange>,
 {
    fn from(pos: LineColByteRange) -> Self {
        (A::from(pos), B::from(pos), C::from(pos), D::from(pos), E::from(pos), F::from(pos))
    }
}

impl<A, B, C, D, E, F> FromSpecImpl<LineColByteRange> for (A, B, C, D, E, F) where
    A: From<LineColByteRange>,
    B: From<LineColByteRange>,
    C: From<LineColByteRange>,
    D: From<LineColByteRange>,
    E: From<LineColByteRange>,
    F: From<LineColByteRange>,
 {
    open spec fn obeys_from_spec() -> bool {
        A::obeys_from_spec() && B::obeys_from_spec() && C::obeys_from_spec()
            && D::obeys_from_spec() && E::obeys_from_spec() && F::obeys_from_spec()
    }

    open spec fn from_spec(pos: LineColByteRange) -> (A, B, C, D, E, F) {
        (
            A::from_spec(pos),
            B::from_spec(pos),
            C::from_spec(pos),
            D::from_spec(pos),
            E::from_spec(pos),
            F::from_spec(pos),
        )
    }
}

} // verus!
