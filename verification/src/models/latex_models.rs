//! Typed expression trees and their evaluation and rendering protocol.
//!
//! Every node kind owns two operands, each a `Value`: a literal number, a
//! nested node, or absent. Evaluation resolves the operands recursively and
//! applies the node's rule; the first error anywhere in a subtree propagates
//! unchanged to the top. Rendering is an independent traversal that always
//! succeeds and never consults evaluation.

use crate::misc::math::{nth_root, power, spec_nth_root, spec_power};
use crate::models::errors::{calculation_error, overflow_msg, solve_matches, ModelErrors, SpecErr};
use crate::number::{div_val, in_range, mul_val, spec_number_text, Number, SCALE};
use vstd::prelude::*;
use vstd::string::StringExecFns;

verus! {

broadcast use crate::number::lemma_number_in_bounds;

/// The capability every node type offers: evaluation to a number or an
/// error, and rendering to text. `model` is the node's place in the one
/// tagged union that the specification functions speak about.
pub trait LatexStructure {
    spec fn model(&self) -> Node;

    fn solve(&self) -> (r: Result<Number, ModelErrors>)
        ensures
            solve_matches(r, spec_solve(self.model())),
    ;

    fn render(&self) -> (r: String)
        ensures
            r@ == spec_render(self.model()),
    ;
}

/// An operand: a literal number, a nested node owned by value, or absent.
/// What an absent operand means is decided by the operator that reads it.
#[derive(Debug)]
pub enum Value {
    Pure(Number),
    Derived(Box<Node>),
    Null,
}

/// The operator tag a `Parentheses` node dispatches on at evaluation time.
#[derive(Debug)]
pub enum Operant {
    Plus,
    Minus,
    Mult,
    Div,
    Pow,
    Root,
}

/// A node that always fails to evaluate; a placeholder in trees under
/// construction.
#[derive(Debug)]
pub struct Empty;

/// Addition: left operand required, absent right defaults to 0.
#[derive(Debug)]
pub struct Plus {
    pub l: Value,
    pub r: Value,
}

/// Subtraction: left operand required, absent right defaults to 0.
#[derive(Debug)]
pub struct Minus {
    pub l: Value,
    pub r: Value,
}

/// Multiplication: left operand required, absent right defaults to 1.
#[derive(Debug)]
pub struct Times {
    pub l: Value,
    pub r: Value,
}

/// Division: both operands required; a resolved right of zero is an error.
#[derive(Debug)]
pub struct Division {
    pub l: Value,
    pub r: Value,
}

/// Exponentiation: both operands required.
#[derive(Debug)]
pub struct Power {
    pub l: Value,
    pub r: Value,
}

/// Principal n-th root: left is the degree, right the radicand, both required.
#[derive(Debug)]
pub struct Root {
    pub l: Value,
    pub r: Value,
}

/// A parenthesized binary expression whose operator is chosen at run time.
/// Operands resolve with the convention of `Plus`: left required, absent
/// right defaults to 0; the resolved pair is then handed to the rule that
/// the tag names.
#[derive(Debug)]
pub struct Parentheses {
    pub l: Value,
    pub o: Operant,
    pub r: Value,
}

/// The tagged union of every node kind, so that any node can hold any other
/// node kind as an operand, decided at run time.
#[derive(Debug)]
pub enum Node {
    Empty(Empty),
    Plus(Plus),
    Minus(Minus),
    Times(Times),
    Division(Division),
    Power(Power),
    Root(Root),
    Parentheses(Parentheses),
}

/// Resolves an operand on a side the operator requires: a literal is its
/// value, a nested node is evaluated, and an absent operand is a calculation
/// error with the operator's wording.
pub open spec fn spec_resolve_required(v: Value, msg: Seq<char>) -> Result<int, SpecErr>
    decreases v,
{
    match v {
        Value::Pure(x) => Result::Ok(x@),
        Value::Derived(b) => spec_solve(*b),
        Value::Null => Result::Err(SpecErr::Calculation(msg)),
    }
}

/// Resolves an operand on a side the operator treats as optional: as above,
/// except that an absent operand yields the operator's identity element.
pub open spec fn spec_resolve_optional(v: Value, identity: int) -> Result<int, SpecErr>
    decreases v,
{
    match v {
        Value::Pure(x) => Result::Ok(x@),
        Value::Derived(b) => spec_solve(*b),
        Value::Null => Result::Ok(identity),
    }
}

/// Sum of two resolved operands, or an overflow error.
pub open spec fn spec_add(l: int, r: int) -> Result<int, SpecErr> {
    if in_range(l + r) {
        Result::Ok(l + r)
    } else {
        Result::Err(SpecErr::Calculation(overflow_msg()))
    }
}

/// Difference of two resolved operands, or an overflow error.
pub open spec fn spec_sub(l: int, r: int) -> Result<int, SpecErr> {
    if in_range(l - r) {
        Result::Ok(l - r)
    } else {
        Result::Err(SpecErr::Calculation(overflow_msg()))
    }
}

/// Product of two resolved operands, or an overflow error.
pub open spec fn spec_mul(l: int, r: int) -> Result<int, SpecErr> {
    if in_range(mul_val(l, r)) {
        Result::Ok(mul_val(l, r))
    } else {
        Result::Err(SpecErr::Calculation(overflow_msg()))
    }
}

/// Quotient of two resolved operands: a right of zero is a division-by-zero
/// error, and a quotient outside the raw range an overflow error.
pub open spec fn spec_div(l: int, r: int) -> Result<int, SpecErr> {
    if r == 0 {
        Result::Err(SpecErr::DivisionByZero)
    } else if in_range(div_val(l, r)) {
        Result::Ok(div_val(l, r))
    } else {
        Result::Err(SpecErr::Calculation(overflow_msg()))
    }
}

/// The binary rule that an operator tag names, applied to resolved operands.
pub open spec fn spec_apply(o: Operant, l: int, r: int) -> Result<int, SpecErr> {
    match o {
        Operant::Plus => spec_add(l, r),
        Operant::Minus => spec_sub(l, r),
        Operant::Mult => spec_mul(l, r),
        Operant::Div => spec_div(l, r),
        Operant::Pow => spec_power(l, r),
        Operant::Root => spec_nth_root(l, r),
    }
}

/// Evaluation of a tree: each node resolves its operands per its own
/// required/optional convention and applies its rule; the first error in a
/// subtree is the result of every enclosing evaluation, unchanged.
/// `Minus` reports an absent left operand with the wording of `Plus`, a
/// long-standing quirk that callers may rely on, so it is kept.
pub open spec fn spec_solve(n: Node) -> Result<int, SpecErr>
    decreases n,
{
    match n {
        Node::Empty(_) => Result::Err(SpecErr::EmptyStruct),
        Node::Plus(p) => match spec_resolve_required(
            p.l,
            "left branch of the Plus structure may not be null"@,
        ) {
            Result::Err(e) => Result::Err(e),
            Result::Ok(lv) => match spec_resolve_optional(p.r, 0) {
                Result::Err(e) => Result::Err(e),
                Result::Ok(rv) => spec_add(lv, rv),
            },
        },
        Node::Minus(p) => match spec_resolve_required(
            p.l,
            "left branch of the Plus structure may not be null"@,
        ) {
            Result::Err(e) => Result::Err(e),
            Result::Ok(lv) => match spec_resolve_optional(p.r, 0) {
                Result::Err(e) => Result::Err(e),
                Result::Ok(rv) => spec_sub(lv, rv),
            },
        },
        Node::Times(p) => match spec_resolve_required(
            p.l,
            "left branch of the Times structure may not be null"@,
        ) {
            Result::Err(e) => Result::Err(e),
            Result::Ok(lv) => match spec_resolve_optional(p.r, SCALE as int) {
                Result::Err(e) => Result::Err(e),
                Result::Ok(rv) => spec_mul(lv, rv),
            },
        },
        Node::Division(p) => match spec_resolve_required(
            p.l,
            "left branch of the Division structure may not be null"@,
        ) {
            Result::Err(e) => Result::Err(e),
            Result::Ok(lv) => match spec_resolve_required(
                p.r,
                "right branch of the Division structure may not be null"@,
            ) {
                Result::Err(e) => Result::Err(e),
                Result::Ok(rv) => spec_div(lv, rv),
            },
        },
        Node::Power(p) => match spec_resolve_required(
            p.l,
            "left branch of the Power structure may not be null"@,
        ) {
            Result::Err(e) => Result::Err(e),
            Result::Ok(lv) => match spec_resolve_required(
                p.r,
                "right branch of the Power structure may not be null"@,
            ) {
                Result::Err(e) => Result::Err(e),
                Result::Ok(rv) => spec_power(lv, rv),
            },
        },
        Node::Root(p) => match spec_resolve_required(
            p.l,
            "left branch of the Root structure may not be null"@,
        ) {
            Result::Err(e) => Result::Err(e),
            Result::Ok(lv) => match spec_resolve_required(
                p.r,
                "right branch of the Root structure may not be null"@,
            ) {
                Result::Err(e) => Result::Err(e),
                Result::Ok(rv) => spec_nth_root(lv, rv),
            },
        },
        Node::Parentheses(p) => match spec_resolve_required(
            p.l,
            "left branch of the Parentheses structure may not be null"@,
        ) {
            Result::Err(e) => Result::Err(e),
            Result::Ok(lv) => match spec_resolve_optional(p.r, 0) {
                Result::Err(e) => Result::Err(e),
                Result::Ok(rv) => spec_apply(p.o, lv, rv),
            },
        },
    }
}

fn resolve_required(v: &Value, msg: &str) -> (r: Result<Number, ModelErrors>)
    ensures
        solve_matches(r, spec_resolve_required(*v, msg@)),
    decreases v,
{
    match v {
        Value::Pure(x) => Result::Ok(*x),
        Value::Derived(b) => solve_node(&**b),
        Value::Null => Result::Err(calculation_error(msg)),
    }
}

fn resolve_optional(v: &Value, identity: Number) -> (r: Result<Number, ModelErrors>)
    ensures
        solve_matches(r, spec_resolve_optional(*v, identity@)),
    decreases v,
{
    match v {
        Value::Pure(x) => Result::Ok(*x),
        Value::Derived(b) => solve_node(&**b),
        Value::Null => Result::Ok(identity),
    }
}

fn add_values(l: Number, r: Number) -> (res: Result<Number, ModelErrors>)
    ensures
        solve_matches(res, spec_add(l@, r@)),
{
    match l.checked_add(r) {
        Option::Some(s) => Result::Ok(s),
        Option::None => Result::Err(calculation_error("the calculation overflowed the numeric range")),
    }
}

fn sub_values(l: Number, r: Number) -> (res: Result<Number, ModelErrors>)
    ensures
        solve_matches(res, spec_sub(l@, r@)),
{
    match l.checked_sub(r) {
        Option::Some(s) => Result::Ok(s),
        Option::None => Result::Err(calculation_error("the calculation overflowed the numeric range")),
    }
}

fn mul_values(l: Number, r: Number) -> (res: Result<Number, ModelErrors>)
    ensures
        solve_matches(res, spec_mul(l@, r@)),
{
    match l.checked_mul(r) {
        Option::Some(s) => Result::Ok(s),
        Option::None => Result::Err(calculation_error("the calculation overflowed the numeric range")),
    }
}

fn div_values(l: Number, r: Number) -> (res: Result<Number, ModelErrors>)
    ensures
        solve_matches(res, spec_div(l@, r@)),
{
    if r.raw() == 0 {
        return Result::Err(ModelErrors::DivisionByZeroError());
    }
    match l.checked_div(r) {
        Option::Some(s) => Result::Ok(s),
        Option::None => Result::Err(calculation_error("the calculation overflowed the numeric range")),
    }
}

fn apply_operant(o: &Operant, l: Number, r: Number) -> (res: Result<Number, ModelErrors>)
    ensures
        solve_matches(res, spec_apply(*o, l@, r@)),
{
    match o {
        Operant::Plus => add_values(l, r),
        Operant::Minus => sub_values(l, r),
        Operant::Mult => mul_values(l, r),
        Operant::Div => div_values(l, r),
        Operant::Pow => power(l, r),
        Operant::Root => nth_root(l, r),
    }
}

fn solve_plus(p: &Plus) -> (r: Result<Number, ModelErrors>)
    ensures
        solve_matches(r, spec_solve(Node::Plus(*p))),
    decreases p,
{
    let lv = match resolve_required(&p.l, "left branch of the Plus structure may not be null") {
        Result::Ok(v) => v,
        Result::Err(e) => {
            return Result::Err(e);
        },
    };
    let rv = match resolve_optional(&p.r, Number::from_raw(0)) {
        Result::Ok(v) => v,
        Result::Err(e) => {
            return Result::Err(e);
        },
    };
    add_values(lv, rv)
}

fn solve_minus(p: &Minus) -> (r: Result<Number, ModelErrors>)
    ensures
        solve_matches(r, spec_solve(Node::Minus(*p))),
    decreases p,
{
    let lv = match resolve_required(&p.l, "left branch of the Plus structure may not be null") {
        Result::Ok(v) => v,
        Result::Err(e) => {
            return Result::Err(e);
        },
    };
    let rv = match resolve_optional(&p.r, Number::from_raw(0)) {
        Result::Ok(v) => v,
        Result::Err(e) => {
            return Result::Err(e);
        },
    };
    sub_values(lv, rv)
}

fn solve_times(p: &Times) -> (r: Result<Number, ModelErrors>)
    ensures
        solve_matches(r, spec_solve(Node::Times(*p))),
    decreases p,
{
    let lv = match resolve_required(&p.l, "left branch of the Times structure may not be null") {
        Result::Ok(v) => v,
        Result::Err(e) => {
            return Result::Err(e);
        },
    };
    let rv = match resolve_optional(&p.r, Number::from_raw(SCALE)) {
        Result::Ok(v) => v,
        Result::Err(e) => {
            return Result::Err(e);
        },
    };
    mul_values(lv, rv)
}

fn solve_division(p: &Division) -> (r: Result<Number, ModelErrors>)
    ensures
        solve_matches(r, spec_solve(Node::Division(*p))),
    decreases p,
{
    let lv = match resolve_required(&p.l, "left branch of the Division structure may not be null") {
        Result::Ok(v) => v,
        Result::Err(e) => {
            return Result::Err(e);
        },
    };
    let rv = match resolve_required(&p.r, "right branch of the Division structure may not be null") {
        Result::Ok(v) => v,
        Result::Err(e) => {
            return Result::Err(e);
        },
    };
    div_values(lv, rv)
}

fn solve_power(p: &Power) -> (r: Result<Number, ModelErrors>)
    ensures
        solve_matches(r, spec_solve(Node::Power(*p))),
    decreases p,
{
    let lv = match resolve_required(&p.l, "left branch of the Power structure may not be null") {
        Result::Ok(v) => v,
        Result::Err(e) => {
            return Result::Err(e);
        },
    };
    let rv = match resolve_required(&p.r, "right branch of the Power structure may not be null") {
        Result::Ok(v) => v,
        Result::Err(e) => {
            return Result::Err(e);
        },
    };
    power(lv, rv)
}

fn solve_root(p: &Root) -> (r: Result<Number, ModelErrors>)
    ensures
        solve_matches(r, spec_solve(Node::Root(*p))),
    decreases p,
{
    let lv = match resolve_required(&p.l, "left branch of the Root structure may not be null") {
        Result::Ok(v) => v,
        Result::Err(e) => {
            return Result::Err(e);
        },
    };
    let rv = match resolve_required(&p.r, "right branch of the Root structure may not be null") {
        Result::Ok(v) => v,
        Result::Err(e) => {
            return Result::Err(e);
        },
    };
    nth_root(lv, rv)
}

fn solve_parentheses(p: &Parentheses) -> (r: Result<Number, ModelErrors>)
    ensures
        solve_matches(r, spec_solve(Node::Parentheses(*p))),
    decreases p,
{
    let lv = match resolve_required(
        &p.l,
        "left branch of the Parentheses structure may not be null",
    ) {
        Result::Ok(v) => v,
        Result::Err(e) => {
            return Result::Err(e);
        },
    };
    let rv = match resolve_optional(&p.r, Number::from_raw(0)) {
        Result::Ok(v) => v,
        Result::Err(e) => {
            return Result::Err(e);
        },
    };
    apply_operant(&p.o, lv, rv)
}

fn solve_node(n: &Node) -> (r: Result<Number, ModelErrors>)
    ensures
        solve_matches(r, spec_solve(*n)),
    decreases n,
{
    match n {
        Node::Empty(_) => Result::Err(ModelErrors::EmptyStructError()),
        Node::Plus(p) => solve_plus(p),
        Node::Minus(p) => solve_minus(p),
        Node::Times(p) => solve_times(p),
        Node::Division(p) => solve_division(p),
        Node::Power(p) => solve_power(p),
        Node::Root(p) => solve_root(p),
        Node::Parentheses(p) => solve_parentheses(p),
    }
}

/// Text of an operator tag.
pub open spec fn spec_operant_text(o: Operant) -> Seq<char> {
    match o {
        Operant::Plus => "Plus"@,
        Operant::Minus => "Minus"@,
        Operant::Mult => "Mult"@,
        Operant::Div => "Div"@,
        Operant::Pow => "Pow"@,
        Operant::Root => "Root"@,
    }
}

/// Text of an operand: a literal prints its number, a nested node prints its
/// own rendering, an absent operand prints `Null`.
pub open spec fn spec_render_value(v: Value) -> Seq<char>
    decreases v,
{
    match v {
        Value::Pure(x) => "Pure("@ + spec_number_text(x@) + ")"@,
        Value::Derived(b) => "Derived("@ + spec_render(*b) + ")"@,
        Value::Null => "Null"@,
    }
}

/// Rendering of a tree: each node prints its kind and its operands; the
/// traversal is total and independent of evaluation.
pub open spec fn spec_render(n: Node) -> Seq<char>
    decreases n,
{
    match n {
        Node::Empty(_) => "Empty"@,
        Node::Plus(p) => "Plus(l="@ + spec_render_value(p.l) + ", r="@ + spec_render_value(p.r)
            + ")"@,
        Node::Minus(p) => "Minus(l="@ + spec_render_value(p.l) + ", r="@ + spec_render_value(p.r)
            + ")"@,
        Node::Times(p) => "Times(l="@ + spec_render_value(p.l) + ", r="@ + spec_render_value(p.r)
            + ")"@,
        Node::Division(p) => "Division(l="@ + spec_render_value(p.l) + ", r="@
            + spec_render_value(p.r) + ")"@,
        Node::Power(p) => "Power(l="@ + spec_render_value(p.l) + ", r="@ + spec_render_value(p.r)
            + ")"@,
        Node::Root(p) => "Root(l="@ + spec_render_value(p.l) + ", r="@ + spec_render_value(p.r)
            + ")"@,
        Node::Parentheses(p) => "Parentheses(l="@ + spec_render_value(p.l) + ", o="@
            + spec_operant_text(p.o) + ", r="@ + spec_render_value(p.r) + ")"@,
    }
}

fn operant_text(o: &Operant) -> (s: String)
    ensures
        s@ == spec_operant_text(*o),
{
    match o {
        Operant::Plus => String::from_str("Plus"),
        Operant::Minus => String::from_str("Minus"),
        Operant::Mult => String::from_str("Mult"),
        Operant::Div => String::from_str("Div"),
        Operant::Pow => String::from_str("Pow"),
        Operant::Root => String::from_str("Root"),
    }
}

fn wrap_binary(prefix: &str, ltext: String, rtext: String) -> (s: String)
    ensures
        s@ == prefix@ + ltext@ + ", r="@ + rtext@ + ")"@,
{
    let mut s = String::from_str(prefix);
    s.append(ltext.as_str());
    s.append(", r=");
    s.append(rtext.as_str());
    s.append(")");
    s
}

fn render_value(v: &Value) -> (s: String)
    ensures
        s@ == spec_render_value(*v),
    decreases v,
{
    match v {
        Value::Pure(x) => {
            let mut s = String::from_str("Pure(");
            s.append(x.text().as_str());
            s.append(")");
            s
        },
        Value::Derived(b) => {
            let mut s = String::from_str("Derived(");
            s.append(render_node(&**b).as_str());
            s.append(")");
            s
        },
        Value::Null => String::from_str("Null"),
    }
}

fn render_node(n: &Node) -> (s: String)
    ensures
        s@ == spec_render(*n),
    decreases n,
{
    match n {
        Node::Empty(_) => String::from_str("Empty"),
        Node::Plus(p) => wrap_binary("Plus(l=", render_value(&p.l), render_value(&p.r)),
        Node::Minus(p) => wrap_binary("Minus(l=", render_value(&p.l), render_value(&p.r)),
        Node::Times(p) => wrap_binary("Times(l=", render_value(&p.l), render_value(&p.r)),
        Node::Division(p) => wrap_binary("Division(l=", render_value(&p.l), render_value(&p.r)),
        Node::Power(p) => wrap_binary("Power(l=", render_value(&p.l), render_value(&p.r)),
        Node::Root(p) => wrap_binary("Root(l=", render_value(&p.l), render_value(&p.r)),
        Node::Parentheses(p) => {
            let mut s = String::from_str("Parentheses(l=");
            s.append(render_value(&p.l).as_str());
            s.append(", o=");
            s.append(operant_text(&p.o).as_str());
            s.append(", r=");
            s.append(render_value(&p.r).as_str());
            s.append(")");
            s
        },
    }
}

impl LatexStructure for Empty {
    open spec fn model(&self) -> Node {
        Node::Empty(Empty)
    }

    fn solve(&self) -> Result<Number, ModelErrors> {
        Result::Err(ModelErrors::EmptyStructError())
    }

    fn render(&self) -> String {
        String::from_str("Empty")
    }
}

impl Plus {
    /// A node with the two given operands.
    pub fn new(l: Value, r: Value) -> (p: Self)
        ensures
            p.l == l,
            p.r == r,
    {
        Plus { l, r }
    }

    /// Replaces the left operand wholesale; the right one is untouched.
    pub fn change_l(&mut self, l: Value)
        ensures
            final (self).l == l,
            final (self).r == old(self).r,
    {
        self.l = l;
    }

    /// Replaces the right operand wholesale; the left one is untouched.
    pub fn change_r(&mut self, r: Value)
        ensures
            final (self).r == r,
            final (self).l == old(self).l,
    {
        self.r = r;
    }
}

impl LatexStructure for Plus {
    open spec fn model(&self) -> Node {
        Node::Plus(*self)
    }

    fn solve(&self) -> Result<Number, ModelErrors> {
        solve_plus(self)
    }

    fn render(&self) -> String {
        wrap_binary("Plus(l=", render_value(&self.l), render_value(&self.r))
    }
}

impl Minus {
    /// A node with the two given operands.
    pub fn new(l: Value, r: Value) -> (p: Self)
        ensures
            p.l == l,
            p.r == r,
    {
        Minus { l, r }
    }

    /// Replaces the left operand wholesale; the right one is untouched.
    pub fn change_l(&mut self, l: Value)
        ensures
            final (self).l == l,
            final (self).r == old(self).r,
    {
        self.l = l;
    }

    /// Replaces the right operand wholesale; the left one is untouched.
    pub fn change_r(&mut self, r: Value)
        ensures
            final (self).r == r,
            final (self).l == old(self).l,
    {
        self.r = r;
    }
}

impl LatexStructure for Minus {
    open spec fn model(&self) -> Node {
        Node::Minus(*self)
    }

    fn solve(&self) -> Result<Number, ModelErrors> {
        solve_minus(self)
    }

    fn render(&self) -> String {
        wrap_binary("Minus(l=", render_value(&self.l), render_value(&self.r))
    }
}

impl Times {
    /// A node with the two given operands.
    pub fn new(l: Value, r: Value) -> (p: Self)
        ensures
            p.l == l,
            p.r == r,
    {
        Times { l, r }
    }

    /// Replaces the left operand wholesale; the right one is untouched.
    pub fn change_l(&mut self, l: Value)
        ensures
            final (self).l == l,
            final (self).r == old(self).r,
    {
        self.l = l;
    }

    /// Replaces the right operand wholesale; the left one is untouched.
    pub fn change_r(&mut self, r: Value)
        ensures
            final (self).r == r,
            final (self).l == old(self).l,
    {
        self.r = r;
    }
}

impl LatexStructure for Times {
    open spec fn model(&self) -> Node {
        Node::Times(*self)
    }

    fn solve(&self) -> Result<Number, ModelErrors> {
        solve_times(self)
    }

    fn render(&self) -> String {
        wrap_binary("Times(l=", render_value(&self.l), render_value(&self.r))
    }
}

impl Division {
    /// A node with the two given operands.
    pub fn new(l: Value, r: Value) -> (p: Self)
        ensures
            p.l == l,
            p.r == r,
    {
        Division { l, r }
    }

    /// Replaces the left operand wholesale; the right one is untouched.
    pub fn change_l(&mut self, l: Value)
        ensures
            final (self).l == l,
            final (self).r == old(self).r,
    {
        self.l = l;
    }

    /// Replaces the right operand wholesale; the left one is untouched.
    pub fn change_r(&mut self, r: Value)
        ensures
            final (self).r == r,
            final (self).l == old(self).l,
    {
        self.r = r;
    }
}

impl LatexStructure for Division {
    open spec fn model(&self) -> Node {
        Node::Division(*self)
    }

    fn solve(&self) -> Result<Number, ModelErrors> {
        solve_division(self)
    }

    fn render(&self) -> String {
        wrap_binary("Division(l=", render_value(&self.l), render_value(&self.r))
    }
}

impl Power {
    /// A node with the two given operands.
    pub fn new(l: Value, r: Value) -> (p: Self)
        ensures
            p.l == l,
            p.r == r,
    {
        Power { l, r }
    }

    /// Replaces the left operand wholesale; the right one is untouched.
    pub fn change_l(&mut self, l: Value)
        ensures
            final (self).l == l,
            final (self).r == old(self).r,
    {
        self.l = l;
    }

    /// Replaces the right operand wholesale; the left one is untouched.
    pub fn change_r(&mut self, r: Value)
        ensures
            final (self).r == r,
            final (self).l == old(self).l,
    {
        self.r = r;
    }
}

impl LatexStructure for Power {
    open spec fn model(&self) -> Node {
        Node::Power(*self)
    }

    fn solve(&self) -> Result<Number, ModelErrors> {
        solve_power(self)
    }

    fn render(&self) -> String {
        wrap_binary("Power(l=", render_value(&self.l), render_value(&self.r))
    }
}

impl Root {
    /// A node with the two given operands.
    pub fn new(l: Value, r: Value) -> (p: Self)
        ensures
            p.l == l,
            p.r == r,
    {
        Root { l, r }
    }

    /// Replaces the left operand wholesale; the right one is untouched.
    pub fn change_l(&mut self, l: Value)
        ensures
            final (self).l == l,
            final (self).r == old(self).r,
    {
        self.l = l;
    }

    /// Replaces the right operand wholesale; the left one is untouched.
    pub fn change_r(&mut self, r: Value)
        ensures
            final (self).r == r,
            final (self).l == old(self).l,
    {
        self.r = r;
    }
}

impl LatexStructure for Root {
    open spec fn model(&self) -> Node {
        Node::Root(*self)
    }

    fn solve(&self) -> Result<Number, ModelErrors> {
        solve_root(self)
    }

    fn render(&self) -> String {
        wrap_binary("Root(l=", render_value(&self.l), render_value(&self.r))
    }
}

impl Parentheses {
    /// A node with the two given operands and the operator tag between them.
    pub fn new(l: Value, o: Operant, r: Value) -> (p: Self)
        ensures
            p.l == l,
            p.o == o,
            p.r == r,
    {
        Parentheses { l, o, r }
    }

    /// Replaces the left operand wholesale; the rest is untouched.
    pub fn change_l(&mut self, l: Value)
        ensures
            final (self).l == l,
            final (self).o == old(self).o,
            final (self).r == old(self).r,
    {
        self.l = l;
    }

    /// Replaces the right operand wholesale; the rest is untouched.
    pub fn change_r(&mut self, r: Value)
        ensures
            final (self).r == r,
            final (self).l == old(self).l,
            final (self).o == old(self).o,
    {
        self.r = r;
    }
}

impl LatexStructure for Parentheses {
    open spec fn model(&self) -> Node {
        Node::Parentheses(*self)
    }

    fn solve(&self) -> Result<Number, ModelErrors> {
        solve_parentheses(self)
    }

    fn render(&self) -> String {
        let mut s = String::from_str("Parentheses(l=");
        s.append(render_value(&self.l).as_str());
        s.append(", o=");
        s.append(operant_text(&self.o).as_str());
        s.append(", r=");
        s.append(render_value(&self.r).as_str());
        s.append(")");
        s
    }
}

impl LatexStructure for Node {
    open spec fn model(&self) -> Node {
        *self
    }

    fn solve(&self) -> Result<Number, ModelErrors> {
        solve_node(self)
    }

    fn render(&self) -> String {
        render_node(self)
    }
}

/// Law: adding two literal operands evaluates to exactly their sum, whenever
/// that sum stays inside the numeric range.
pub proof fn lemma_plus_pure(a: Number, b: Number)
    requires
        in_range(a@ + b@),
    ensures
        spec_solve(Node::Plus((Plus { l: Value::Pure(a), r: Value::Pure(b) }))) == Result::<
            int,
            SpecErr,
        >::Ok(a@ + b@),
{
}

/// Law: subtracting two literal operands evaluates to exactly their
/// difference, whenever that difference stays inside the numeric range.
pub proof fn lemma_minus_pure(a: Number, b: Number)
    requires
        in_range(a@ - b@),
    ensures
        spec_solve(Node::Minus((Minus { l: Value::Pure(a), r: Value::Pure(b) }))) == Result::<
            int,
            SpecErr,
        >::Ok(a@ - b@),
{
}

/// Law: an absent right operand of an addition defaults to the identity, so
/// the sum is the left operand itself, for every value inside the numeric
/// range.
pub proof fn lemma_plus_null_right(a: Number)
    requires
        in_range(a@),
    ensures
        spec_solve(Node::Plus((Plus { l: Value::Pure(a), r: Value::Null }))) == Result::<
            int,
            SpecErr,
        >::Ok(a@),
{
}

/// Law: an absent left operand of an addition is never valid; evaluation is
/// a calculation error whatever the right operand holds.
pub proof fn lemma_plus_null_left(r: Value)
    ensures
        spec_solve(Node::Plus((Plus { l: Value::Null, r }))) == Result::<int, SpecErr>::Err(
            SpecErr::Calculation("left branch of the Plus structure may not be null"@),
        ),
{
}

/// Law: an absent left operand of a subtraction fails with the wording of
/// the addition node, the quirk noted at `spec_solve`.
pub proof fn lemma_minus_null_left(r: Value)
    ensures
        spec_solve(Node::Minus((Minus { l: Value::Null, r }))) == Result::<int, SpecErr>::Err(
            SpecErr::Calculation("left branch of the Plus structure may not be null"@),
        ),
{
}

/// Law: dividing any literal by a literal zero is a division-by-zero error.
pub proof fn lemma_division_by_zero(a: Number, z: Number)
    requires
        z@ == 0,
    ensures
        spec_solve(Node::Division((Division { l: Value::Pure(a), r: Value::Pure(z) })))
            == Result::<int, SpecErr>::Err(SpecErr::DivisionByZero),
{
}

/// Law: an `Empty` node always fails with the empty-structure error; it
/// reads no input at all.
pub proof fn lemma_empty_always_fails()
    ensures
        spec_solve(Node::Empty(Empty)) == Result::<int, SpecErr>::Err(SpecErr::EmptyStruct),
{
}

/// Law: rendering is a pure function of the node alone, so any two renderings
/// of an unmutated node are the same text; and it is total, so it never
/// reports an error.
pub proof fn lemma_render_repeatable(n: Node, s1: String, s2: String)
    requires
        s1@ == spec_render(n),
        s2@ == spec_render(n),
    ensures
        s1@ == s2@,
{
}

/// Law: evaluation and rendering read nothing but the current operands, so
/// two nodes whose operands agree behave alike; after a mutator replaced an
/// operand, no trace of the previous one remains.
pub proof fn lemma_mutation_reflects_operands(p1: Plus, p2: Plus)
    requires
        p1.l == p2.l,
        p1.r == p2.r,
    ensures
        spec_solve(Node::Plus(p1)) == spec_solve(Node::Plus(p2)),
        spec_render(Node::Plus(p1)) == spec_render(Node::Plus(p2)),
{
}

} // verus!
