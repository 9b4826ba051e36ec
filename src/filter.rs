use vstd::prelude::*;

verus! {

/// A value bound to a statement placeholder.
#[derive(Debug)]
pub enum Literal {
    Int(i32),
    BigInt(i64),
    Boolean(bool),
    Text(String),
    Uuid(u128),
    /// Milliseconds since the Unix epoch.
    Timestamp(i64),
}

impl Literal {
    /// A copy of the value, equal to it.
    pub fn copied(&self) -> (r: Literal)
        ensures
            r == *self,
    {
        match self {
            Literal::Int(v) => Literal::Int(*v),
            Literal::BigInt(v) => Literal::BigInt(*v),
            Literal::Boolean(v) => Literal::Boolean(*v),
            Literal::Text(v) => Literal::Text(v.clone()),
            Literal::Uuid(v) => Literal::Uuid(*v),
            Literal::Timestamp(v) => Literal::Timestamp(*v),
        }
    }
}

impl From<i32> for Literal {
    fn from(v: i32) -> (r: Literal)
        ensures
            r == Literal::Int(v),
    {
        Literal::Int(v)
    }
}

impl vstd::std_specs::convert::FromSpecImpl<i32> for Literal {
    open spec fn obeys_from_spec() -> bool {
        true
    }

    open spec fn from_spec(v: i32) -> Literal {
        Literal::Int(v)
    }
}

impl From<i64> for Literal {
    fn from(v: i64) -> (r: Literal)
        ensures
            r == Literal::BigInt(v),
    {
        Literal::BigInt(v)
    }
}

impl vstd::std_specs::convert::FromSpecImpl<i64> for Literal {
    open spec fn obeys_from_spec() -> bool {
        true
    }

    open spec fn from_spec(v: i64) -> Literal {
        Literal::BigInt(v)
    }
}

impl From<bool> for Literal {
    fn from(v: bool) -> (r: Literal)
        ensures
            r == Literal::Boolean(v),
    {
        Literal::Boolean(v)
    }
}

impl vstd::std_specs::convert::FromSpecImpl<bool> for Literal {
    open spec fn obeys_from_spec() -> bool {
        true
    }

    open spec fn from_spec(v: bool) -> Literal {
        Literal::Boolean(v)
    }
}

/// The comparison of a predicate. A substring match carries its own pattern,
/// which is inlined into the statement instead of being bound.
#[derive(Debug)]
pub enum Operator {
    Eq,
    Lte,
    Gte,
    LikeContains(String),
}

/// The text of an operator: its symbol, or the pattern of a substring match.
pub open spec fn operator_text(op: Operator) -> Seq<char> {
    match op {
        Operator::Eq => "="@,
        Operator::Lte => "<="@,
        Operator::Gte => ">="@,
        Operator::LikeContains(pattern) => pattern@,
    }
}

impl Operator {
    pub fn to_string(&self) -> (r: String)
        ensures
            r@ == operator_text(*self),
    {
        match self {
            Operator::Eq => String::from_str("="),
            Operator::Lte => String::from_str("<="),
            Operator::Gte => String::from_str(">="),
            Operator::LikeContains(pattern) => pattern.clone(),
        }
    }

    /// A copy of the operator, equal to it.
    pub fn copied(&self) -> (r: Operator)
        ensures
            r == *self,
    {
        match self {
            Operator::Eq => Operator::Eq,
            Operator::Lte => Operator::Lte,
            Operator::Gte => Operator::Gte,
            Operator::LikeContains(pattern) => Operator::LikeContains(pattern.clone()),
        }
    }
}

/// One comparison of a field against a bound literal, or a substring match.
#[derive(Debug)]
pub struct Filter {
    pub field_name: String,
    pub operator: Operator,
    pub value: Option<Literal>,
}

impl Filter {
    /// A comparison binds exactly one literal; a substring match binds none.
    pub open spec fn wf(&self) -> bool {
        (self.operator is LikeContains) <==> (self.value is None)
    }

    pub fn new(field_name: &str, operator: Operator, value: Option<Literal>) -> (r: Filter)
        requires
            (operator is LikeContains) <==> (value is None),
        ensures
            r.field_name@ == field_name@,
            r.operator == operator,
            r.value == value,
            r.wf(),
    {
        Filter { field_name: String::from_str(field_name), operator, value }
    }

    pub fn get_field_name(&self) -> (r: &str)
        ensures
            r@ == self.field_name@,
    {
        self.field_name.as_str()
    }

    pub fn get_operator(&self) -> (r: Operator)
        ensures
            r == self.operator,
    {
        self.operator.copied()
    }

    pub fn get_value(&self) -> (r: Option<Literal>)
        ensures
            r == self.value,
    {
        match &self.value {
            Some(v) => Some(v.copied()),
            None => None,
        }
    }

    /// A copy of the predicate, equal to it.
    pub fn copied(&self) -> (r: Filter)
        ensures
            r == *self,
    {
        Filter {
            field_name: self.field_name.clone(),
            operator: self.operator.copied(),
            value: self.get_value(),
        }
    }
}

/// Every predicate of the sequence is well formed.
pub open spec fn all_wf(filters: Seq<Filter>) -> bool {
    forall|i: int| 0 <= i < filters.len() ==> (#[trigger] filters[i]).wf()
}

/// A named group of predicates produced by one filter factory, in order.
#[derive(Debug)]
pub struct CustomFilter {
    pub filters: Vec<Filter>,
}

impl CustomFilter {
    pub open spec fn wf(&self) -> bool {
        all_wf(self.filters@)
    }

    pub fn new(filters: Vec<Filter>) -> (r: CustomFilter)
        ensures
            r.filters@ == filters@,
    {
        CustomFilter { filters }
    }

    pub fn get_filters(&self) -> (r: &Vec<Filter>)
        ensures
            r@ == self.filters@,
    {
        &self.filters
    }
}

/// A request-shaped filter that yields at most one predicate group: one when
/// the request field it stands for was supplied, none otherwise.
pub trait IntoCustomFilter: Sized {
    /// Whether `r` is the group (or the absence of one) that the filter yields.
    spec fn yields(&self, r: Option<CustomFilter>) -> bool;

    fn into_custom_filter(self) -> (r: Option<CustomFilter>)
        ensures
            self.yields(r),
            r matches Some(group) ==> group.wf(),
    ;
}

} // verus!
