use vstd::prelude::*;
use crate::lang::types::{
    slot_resolvable,
    slot_type,
    FerrumGenerics,
    FerrumGenericsTable,
    FerrumType,
    GenericTemplate,
    Namespace,
    TemplateType,
    TypeSlot,
};
use crate::lang::variable::{FerrumVarDeclare, FerrumVarDeclareTemplate};

verus! {

/// A function: what callers see of it, and its body.
pub struct FerrumFunction {
    header: FerrumFunctionHeader,
    body: FerrumFunctionBody,
}

/// What callers see of a function.
pub struct FerrumFunctionHeader {
    name: String,
    namespace: Namespace,
    params: Vec<FerrumVarDeclare>,
    return_value: FerrumType,
    generic_fingerprint: u64,
}

/// The body of a function. Nothing is recorded of it yet.
pub struct FerrumFunctionBody {}

/// What is needed to call a function: which one, and which of its
/// instantiations.
pub struct FerrumFunctionPtr {
    function_id: Namespace,
    generic_fingerprint: u64,
}

impl FerrumFunctionPtr {
    pub closed spec fn spec_function_id(&self) -> Seq<char> {
        self.function_id@
    }

    pub closed spec fn spec_fingerprint(&self) -> u64 {
        self.generic_fingerprint
    }

    /// The pointer to the instantiation of `function_id` that was made with
    /// the generics of the given fingerprint.
    pub fn new(function_id: Namespace, generic_fingerprint: u64) -> (r: Self)
        ensures
            r.spec_function_id() == function_id@,
            r.spec_fingerprint() == generic_fingerprint,
    {
        FerrumFunctionPtr { function_id, generic_fingerprint }
    }
}

impl FerrumFunctionHeader {
    pub closed spec fn spec_name(&self) -> Seq<char> {
        self.name@
    }

    pub closed spec fn spec_namespace(&self) -> Seq<char> {
        self.namespace@
    }

    /// The parameters, in order.
    pub closed spec fn spec_params(&self) -> Seq<FerrumVarDeclare> {
        self.params@
    }

    pub closed spec fn spec_return_value(&self) -> FerrumType {
        self.return_value
    }

    pub closed spec fn spec_fingerprint(&self) -> u64 {
        self.generic_fingerprint
    }

    /// The header of the function `name` in `namespace`.
    pub fn new(
        name: String,
        namespace: Namespace,
        params: Vec<FerrumVarDeclare>,
        return_value: FerrumType,
        generic_fingerprint: u64,
    ) -> (r: Self)
        ensures
            r.spec_name() == name@,
            r.spec_namespace() == namespace@,
            r.spec_params() == params@,
            r.spec_return_value() == return_value,
            r.spec_fingerprint() == generic_fingerprint,
    {
        FerrumFunctionHeader { name, namespace, params, return_value, generic_fingerprint }
    }

    /// Whether the header was made with the given generics table.
    pub fn matches_generics(&self, generics: &FerrumGenericsTable) -> (r: bool)
        ensures
            r == (self.spec_fingerprint() == generics.spec_fingerprint()),
    {
        self.generic_fingerprint == *generics.fingerprint()
    }

    /// The type that the function returns.
    pub fn return_value(&self) -> (r: &FerrumType)
        ensures
            *r == self.spec_return_value(),
    {
        &self.return_value
    }

    /// The parameters, in order.
    pub fn params(&self) -> (r: &Vec<FerrumVarDeclare>)
        ensures
            r@ == self.spec_params(),
    {
        &self.params
    }
}

impl FerrumFunction {
    /// What callers see of the function.
    pub closed spec fn spec_header(&self) -> FerrumFunctionHeader {
        self.header
    }

    /// The function with the given header.
    pub fn new(header: FerrumFunctionHeader) -> (r: Self)
        ensures
            r.spec_header() == header,
    {
        FerrumFunction { header, body: FerrumFunctionBody {  } }
    }

    /// What callers see of the function.
    pub fn header(&self) -> (r: &FerrumFunctionHeader)
        ensures
            *r == self.spec_header(),
    {
        &self.header
    }

    /// Whether the function was made with the given generics table.
    pub fn matches_generics(&self, generics: &FerrumGenericsTable) -> (r: bool)
        ensures
            r == (self.spec_header().spec_fingerprint() == generics.spec_fingerprint()),
    {
        self.header.generic_fingerprint == *generics.fingerprint()
    }
}

/// A function whose parameters or return type may be generic. With a
/// generics table it makes a `FerrumFunction`.
pub struct FerrumFunctionTemplate {
    header: FerrumFunctionHeaderTemplate,
    body: FerrumFunctionBodyTemplate,
}

/// A parameter of a function template: written out, or generic.
pub type ParamSlot = TemplateType<FerrumVarDeclare, FerrumVarDeclareTemplate>;

/// What callers see of a function template.
pub struct FerrumFunctionHeaderTemplate {
    name: String,
    namespace: Namespace,
    params: Vec<ParamSlot>,
    return_value: TypeSlot,
    generics: FerrumGenerics,
}

/// The body of a function template. Nothing is recorded of it yet.
pub struct FerrumFunctionBodyTemplate {}

/// Whether the table has the substitution that the parameter needs.
pub open spec fn param_resolvable(slot: ParamSlot, table: &FerrumGenericsTable) -> bool {
    slot matches TemplateType::Templated(generic) ==> generic.resolvable(table)
}

/// Whether `out` is the parameter that the slot means with this table.
pub open spec fn param_made(slot: ParamSlot, table: &FerrumGenericsTable, out: FerrumVarDeclare) -> bool {
    match slot {
        TemplateType::Typed(declare) => out == declare,
        TemplateType::Templated(generic) => generic.instantiates_to(table, &out),
    }
}

impl FerrumFunctionHeaderTemplate {
    pub closed spec fn spec_name(&self) -> Seq<char> {
        self.name@
    }

    pub closed spec fn spec_namespace(&self) -> Seq<char> {
        self.namespace@
    }

    /// The parameters, in order.
    pub closed spec fn param_slots(&self) -> Seq<ParamSlot> {
        self.params@
    }

    pub closed spec fn return_slot(&self) -> TypeSlot {
        self.return_value
    }

    /// The generic parameters that the template declares.
    pub closed spec fn spec_generics(&self) -> FerrumGenerics {
        self.generics
    }

    /// The header template of the function `name` in `namespace`.
    pub fn new(
        name: String,
        namespace: Namespace,
        params: Vec<ParamSlot>,
        return_value: TypeSlot,
        generics: FerrumGenerics,
    ) -> (r: Self)
        ensures
            r.spec_name() == name@,
            r.spec_namespace() == namespace@,
            r.param_slots() == params@,
            r.return_slot() == return_value,
            r.spec_generics() == generics,
    {
        FerrumFunctionHeaderTemplate { name, namespace, params, return_value, generics }
    }
}

impl FerrumFunctionTemplate {
    /// What callers see of the function template.
    pub closed spec fn spec_header(&self) -> FerrumFunctionHeaderTemplate {
        self.header
    }

    /// The function template with the given header.
    pub fn new(header: FerrumFunctionHeaderTemplate) -> (r: Self)
        ensures
            r.spec_header() == header,
    {
        FerrumFunctionTemplate { header, body: FerrumFunctionBodyTemplate {  } }
    }
}

impl GenericTemplate for FerrumFunctionTemplate {
    type Final = FerrumFunction;

    open spec fn resolvable(&self, table: &FerrumGenericsTable) -> bool {
        self.spec_header().resolvable(table)
    }

    open spec fn fits(&self, table: &FerrumGenericsTable) -> bool {
        true
    }

    open spec fn instantiates_to(&self, table: &FerrumGenericsTable, out: &FerrumFunction) -> bool {
        self.spec_header().instantiates_to(table, &out.spec_header())
    }

    fn generate_type(&self, table: &FerrumGenericsTable) -> (r: Option<FerrumFunction>) {
        let header = match self.header.generate_type(table) {
            Some(header) => header,
            None => {
                return None;
            },
        };
        let body = match self.body.generate_type(table) {
            Some(body) => body,
            None => {
                return None;
            },
        };
        Some(FerrumFunction { header, body })
    }
}

impl GenericTemplate for FerrumFunctionBodyTemplate {
    type Final = FerrumFunctionBody;

    open spec fn resolvable(&self, table: &FerrumGenericsTable) -> bool {
        true
    }

    open spec fn fits(&self, table: &FerrumGenericsTable) -> bool {
        true
    }

    open spec fn instantiates_to(&self, table: &FerrumGenericsTable, out: &FerrumFunctionBody) -> bool {
        true
    }

    fn generate_type(&self, _table: &FerrumGenericsTable) -> (r: Option<FerrumFunctionBody>) {
        Some(FerrumFunctionBody {  })
    }
}

impl GenericTemplate for FerrumFunctionHeaderTemplate {
    type Final = FerrumFunctionHeader;

    open spec fn resolvable(&self, table: &FerrumGenericsTable) -> bool {
        &&& forall|i: int|
            0 <= i < self.param_slots().len() ==> param_resolvable(
                #[trigger] self.param_slots()[i],
                table,
            )
        &&& slot_resolvable(self.return_slot(), table)
    }

    open spec fn fits(&self, table: &FerrumGenericsTable) -> bool {
        true
    }

    open spec fn instantiates_to(
        &self,
        table: &FerrumGenericsTable,
        out: &FerrumFunctionHeader,
    ) -> bool {
        &&& out.spec_name() == self.spec_name()
        &&& out.spec_namespace() == self.spec_namespace()
        &&& out.spec_fingerprint() == table.spec_fingerprint()
        &&& out.spec_return_value() == slot_type(self.return_slot(), table)
        &&& out.spec_params().len() == self.param_slots().len()
        &&& forall|i: int|
            0 <= i < self.param_slots().len() ==> param_made(
                self.param_slots()[i],
                table,
                #[trigger] out.spec_params()[i],
            )
    }

    fn generate_type(&self, table: &FerrumGenericsTable) -> (r: Option<FerrumFunctionHeader>) {
        let mut params: Vec<FerrumVarDeclare> = Vec::new();
        let mut i: usize = 0;
        while i < self.params.len()
            invariant
                i <= self.params.len(),
                params@.len() == i,
                forall|k: int| 0 <= k < i ==> param_resolvable(#[trigger] self.params@[k], table),
                forall|k: int|
                    0 <= k < i ==> param_made(self.params@[k], table, #[trigger] params@[k]),
            decreases self.params.len() - i,
        {
            match self.params[i].try_generate_type(table) {
                Some(param) => {
                    params.push(param);
                },
                None => {
                    assert(!param_resolvable(self.param_slots()[i as int], table));
                    return None;
                },
            }
            i += 1;
        }
        let return_value = match self.return_value.try_generate_type(table) {
            Some(ty) => ty,
            None => {
                return None;
            },
        };
        Some(
            FerrumFunctionHeader {
                name: self.name.clone(),
                namespace: self.namespace.clone(),
                params,
                return_value,
                generic_fingerprint: *table.fingerprint(),
            },
        )
    }
}

} // verus!
