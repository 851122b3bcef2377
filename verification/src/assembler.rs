//! The contract assembler: one input record and one output record per
//! schema function, and a descriptor that carries the function's wire
//! identifiers.

use vstd::prelude::*;
use vstd::string::*;
use crate::catalog::{catalog_wf, records_view, RecordDefinition, RecordView};
use crate::compiler::{
    compile_record_spec, CompileError, CompileErrorKind, CompileErrorView, TypeCompiler,
};
use crate::naming::{camel_case_of, to_camel};
use crate::schema::{HeaderKind, Schema, SchemaFunction};

verus! {

/// What the runtime needs to call one function: its name, its position
/// among the schema's functions, the contract's version and headers, its
/// selectors, and the positions of its input and output records in the
/// catalog.
#[derive(Debug)]
pub struct FunctionDescriptor {
    pub name: String,
    pub position: usize,
    pub abi_version_major: u8,
    pub abi_version_minor: u8,
    pub headers: Vec<HeaderKind>,
    pub input_record: usize,
    pub output_record: usize,
    pub input_selector: u32,
    pub output_selector: u32,
}

/// Model of a [`FunctionDescriptor`].
pub ghost struct DescriptorView {
    pub name: Seq<char>,
    pub position: usize,
    pub abi_version_major: u8,
    pub abi_version_minor: u8,
    pub headers: Seq<HeaderKind>,
    pub input_record: usize,
    pub output_record: usize,
    pub input_selector: u32,
    pub output_selector: u32,
}

impl View for FunctionDescriptor {
    type V = DescriptorView;

    open spec fn view(&self) -> DescriptorView {
        DescriptorView {
            name: self.name@,
            position: self.position,
            abi_version_major: self.abi_version_major,
            abi_version_minor: self.abi_version_minor,
            headers: self.headers@,
            input_record: self.input_record,
            output_record: self.output_record,
            input_selector: self.input_selector,
            output_selector: self.output_selector,
        }
    }
}

/// The result of assembling a schema: the descriptors of the functions that
/// compiled, the failures of those that did not, and the record catalog.
#[derive(Debug)]
pub struct Assembly {
    pub functions: Vec<FunctionDescriptor>,
    pub failures: Vec<CompileError>,
    pub records: Vec<RecordDefinition>,
}

/// Model of an [`Assembly`], also of one under way.
pub ghost struct AssemblyView {
    pub functions: Seq<DescriptorView>,
    pub failures: Seq<CompileErrorView>,
    pub records: Seq<RecordView>,
}

/// The suffix of an input record's display name.
pub open spec fn input_suffix() -> Seq<char> {
    "FunctionInput"@
}

/// The suffix of an output record's display name.
pub open spec fn output_suffix() -> Seq<char> {
    "FunctionOutput"@
}

/// What assembling one function leaves behind.
pub ghost struct FunctionOutcome {
    pub catalog: Seq<RecordView>,
    pub result: Result<DescriptorView, CompileErrorView>,
}

/// Whether a function's name is carried by one of the `count` functions
/// before it.
pub open spec fn name_repeats(functions: Seq<SchemaFunction>, count: int) -> bool {
    exists|i: int| 0 <= i < count && (#[trigger] functions[i]).name@ == functions[count].name@
}

/// Assembling the function at `position` under the display name `display`:
/// its inputs
/// compile into the record `display` + `FunctionInput`, then its outputs
/// into the record `display` + `FunctionOutput`.  Where either fails the
/// catalog stays as it was before the function.
pub open spec fn function_step(
    catalog: Seq<RecordView>,
    schema: Schema,
    function: SchemaFunction,
    position: usize,
    display: Seq<char>,
) -> FunctionOutcome {
    let input = compile_record_spec(catalog, display + input_suffix(), function.inputs);
    match input.result {
        Err(e) => FunctionOutcome { catalog, result: Err(e) },
        Ok(input_type) => {
            let output = compile_record_spec(
                input.catalog,
                display + output_suffix(),
                function.outputs,
            );
            match output.result {
                Err(e) => FunctionOutcome { catalog, result: Err(e) },
                Ok(output_type) => FunctionOutcome {
                    catalog: output.catalog,
                    result: Ok(
                        DescriptorView {
                            name: function.name@,
                            position,
                            abi_version_major: schema.abi_version_major,
                            abi_version_minor: schema.abi_version_minor,
                            headers: schema.headers@,
                            input_record: input_type->Record_0,
                            output_record: output_type->Record_0,
                            input_selector: function.input_selector,
                            output_selector: function.output_selector,
                        },
                    ),
                },
            }
        },
    }
}

/// Assembling the first `count` functions of a schema, in order, from an
/// empty catalog.  A function whose name an earlier one carries fails as a
/// duplicate; a function that fails adds its failure and nothing else.
pub open spec fn assemble_spec(schema: Schema, count: nat) -> AssemblyView
    decreases count,
{
    if count == 0 || count > schema.functions@.len() {
        AssemblyView { functions: Seq::empty(), failures: Seq::empty(), records: Seq::empty() }
    } else {
        let before = assemble_spec(schema, (count - 1) as nat);
        let function = schema.functions@[count - 1];
        if name_repeats(schema.functions@, count - 1) {
            AssemblyView {
                failures: before.failures.push(
                    CompileErrorView {
                        kind: CompileErrorKind::DuplicateFunction,
                        subject: function.name@,
                    },
                ),
                ..before
            }
        } else {
            let step = function_step(
                before.records,
                schema,
                function,
                (count - 1) as usize,
                camel_case_of(function.name@),
            );
            match step.result {
                Ok(descriptor) => AssemblyView {
                    functions: before.functions.push(descriptor),
                    failures: before.failures,
                    records: step.catalog,
                },
                Err(e) => AssemblyView {
                    functions: before.functions,
                    failures: before.failures.push(e),
                    records: step.catalog,
                },
            }
        }
    }
}

/// The models of a list of descriptors.
pub open spec fn descriptors_view(items: Seq<FunctionDescriptor>) -> Seq<DescriptorView> {
    Seq::new(items.len(), |i: int| items[i]@)
}

/// The models of a list of failures.
pub open spec fn failures_view(items: Seq<CompileError>) -> Seq<CompileErrorView> {
    Seq::new(items.len(), |i: int| items[i]@)
}

impl View for Assembly {
    type V = AssemblyView;

    open spec fn view(&self) -> AssemblyView {
        AssemblyView {
            functions: descriptors_view(self.functions@),
            failures: failures_view(self.failures@),
            records: records_view(self.records@),
        }
    }
}

/// A copy of a header list.
fn copy_headers(headers: &Vec<HeaderKind>) -> (r: Vec<HeaderKind>)
    ensures
        r@ == headers@,
{
    let mut out: Vec<HeaderKind> = Vec::new();
    let mut i: usize = 0;
    while i < headers.len()
        invariant
            i <= headers.len(),
            out@ == headers@.take(i as int),
        decreases headers.len() - i,
    {
        out.push(headers[i]);
        assert(out@ =~= headers@.take(i + 1));
        i = i + 1;
    }
    assert(headers@.take(headers@.len() as int) =~= headers@);
    out
}

/// Assembles one function under the display name `display`: see
/// [`function_step`].
pub fn assemble_function(
    compiler: &mut TypeCompiler,
    schema: &Schema,
    function: &SchemaFunction,
    position: usize,
    display: &str,
) -> (r: Result<FunctionDescriptor, CompileError>)
    requires
        old(compiler).wf(),
    ensures
        final(compiler).wf(),
        final(compiler)@ == function_step(old(compiler)@, *schema, *function, position, display@).catalog,
        old(compiler)@.len() <= final(compiler)@.len(),
        match r {
            Ok(descriptor) => function_step(
                old(compiler)@,
                *schema,
                *function,
                position,
                display@,
            ).result == Ok::<DescriptorView, CompileErrorView>(descriptor@)
                && descriptor.position == position && descriptor.input_record
                < final(compiler)@.len() && descriptor.output_record < final(compiler)@.len(),
            Err(e) => function_step(old(compiler)@, *schema, *function, position, display@).result == Err::<
                DescriptorView,
                CompileErrorView,
            >(e@),
        },
{
    let mark = compiler.len();
    let ghost start = compiler@;
    let input_name = display.to_owned().concat("FunctionInput");
    let input_record = match compiler.compile_record(input_name.as_str(), &function.inputs) {
        Ok(index) => index,
        Err(e) => {
            return Err(e);
        },
    };
    let output_name = display.to_owned().concat("FunctionOutput");
    let output_record = match compiler.compile_record(output_name.as_str(), &function.outputs) {
        Ok(index) => index,
        Err(e) => {
            compiler.rewind(mark);
            assert(compiler@ =~= start);
            return Err(e);
        },
    };
    Ok(
        FunctionDescriptor {
            name: function.name.clone(),
            position,
            abi_version_major: schema.abi_version_major,
            abi_version_minor: schema.abi_version_minor,
            headers: copy_headers(&schema.headers),
            input_record,
            output_record,
            input_selector: function.input_selector,
            output_selector: function.output_selector,
        },
    )
}

/// Whether one of the first `count` functions carries the name of the
/// function after them.
fn repeats_earlier_name(functions: &Vec<SchemaFunction>, count: usize) -> (r: bool)
    requires
        count < functions.len(),
    ensures
        r == name_repeats(functions@, count as int),
{
    let mut i: usize = 0;
    while i < count
        invariant
            i <= count,
            count < functions.len(),
            forall|j: int| 0 <= j < i ==> (#[trigger] functions@[j]).name@ != functions@[count as int].name@,
        decreases count - i,
    {
        if functions[i].name == functions[count].name {
            return true;
        }
        i = i + 1;
    }
    false
}

/// Assembles a schema: every function in order through one compiler, so
/// that a shape shared between functions is emitted once.
pub fn assemble(schema: &Schema) -> (r: Assembly)
    ensures
        r@ == assemble_spec(*schema, schema.functions@.len()),
        catalog_wf(r@.records),
        forall|i: int|
            0 <= i < r.functions@.len() ==> (#[trigger] r.functions@[i]).input_record
                < r.records@.len() && r.functions@[i].output_record < r.records@.len()
                && r.functions@[i].position < schema.functions@.len(),
{
    let mut compiler = TypeCompiler::new();
    let mut functions: Vec<FunctionDescriptor> = Vec::new();
    let mut failures: Vec<CompileError> = Vec::new();
    let mut i: usize = 0;
    assert(descriptors_view(functions@) =~= Seq::<DescriptorView>::empty());
    assert(failures_view(failures@) =~= Seq::<CompileErrorView>::empty());
    while i < schema.functions.len()
        invariant
            i <= schema.functions.len(),
            compiler.wf(),
            forall|k: int|
                0 <= k < functions@.len() ==> (#[trigger] functions@[k]).input_record
                    < compiler@.len() && functions@[k].output_record < compiler@.len()
                    && functions@[k].position < schema.functions@.len(),
            assemble_spec(*schema, i as nat) == (AssemblyView {
                functions: descriptors_view(functions@),
                failures: failures_view(failures@),
                records: compiler@,
            }),
        decreases schema.functions.len() - i,
    {
        let function = &schema.functions[i];
        let ghost done = descriptors_view(functions@);
        let ghost failed = failures_view(failures@);
        if repeats_earlier_name(&schema.functions, i) {
            let error = CompileError {
                kind: CompileErrorKind::DuplicateFunction,
                subject: function.name.clone(),
            };
            failures.push(error);
            assert(failures_view(failures@) =~= failed.push(error@));
        } else {
            let display = to_camel(function.name.as_str());
            match assemble_function(&mut compiler, schema, function, i, display.as_str()) {
                Ok(descriptor) => {
                    functions.push(descriptor);
                    assert(descriptors_view(functions@) =~= done.push(descriptor@));
                },
                Err(error) => {
                    failures.push(error);
                    assert(failures_view(failures@) =~= failed.push(error@));
                },
            }
        }
        i = i + 1;
    }
    Assembly { functions, failures, records: compiler.into_catalog() }
}

/// The records of a function never ask for an empty display name,
/// whatever the function is called.
pub proof fn lemma_function_records_are_named(display: Seq<char>)
    ensures
        (display + input_suffix()).len() >= 13,
        (display + output_suffix()).len() >= 14,
{
    reveal_strlit("FunctionInput");
    reveal_strlit("FunctionOutput");
}

/// A cell that holds a function's descriptor once it has been built.  The
/// first descriptor published stays; a later one changes nothing.
#[derive(Debug)]
pub struct DescriptorCell {
    slot: Option<FunctionDescriptor>,
}

impl DescriptorCell {
    /// The descriptor that the cell holds, if one was published.
    pub closed spec fn held(&self) -> Option<DescriptorView> {
        match self.slot {
            Some(descriptor) => Some(descriptor@),
            None => None,
        }
    }

    /// An empty cell.
    pub fn new() -> (r: Self)
        ensures
            r.held() is None,
    {
        DescriptorCell { slot: None }
    }

    /// The descriptor held, if one was published.
    pub fn get(&self) -> (r: Option<&FunctionDescriptor>)
        ensures
            match r {
                Some(descriptor) => self.held() == Some(descriptor@),
                None => self.held() is None,
            },
    {
        self.slot.as_ref()
    }

    /// Publishes a descriptor.  An empty cell takes it and answers `true`;
    /// a cell that holds one keeps what it holds and answers `false`.
    pub fn publish(&mut self, descriptor: FunctionDescriptor) -> (taken: bool)
        ensures
            taken == (old(self).held() is None),
            final(self).held() == if taken {
                Some(descriptor@)
            } else {
                old(self).held()
            },
    {
        if self.slot.is_none() {
            self.slot = Some(descriptor);
            true
        } else {
            false
        }
    }
}

/// Determinism: what a schema assembles to depends on nothing but its
/// version, its headers and its functions.  Two schemas that agree on
/// these give the same descriptors, the same failures and the same records,
/// in the same order.
pub proof fn lemma_assembly_is_determined(first: Schema, second: Schema, count: nat)
    requires
        first.abi_version_major == second.abi_version_major,
        first.abi_version_minor == second.abi_version_minor,
        first.headers@ == second.headers@,
        first.functions@ == second.functions@,
    ensures
        assemble_spec(first, count) == assemble_spec(second, count),
    decreases count,
{
    if count > 0 && count <= first.functions@.len() {
        lemma_assembly_is_determined(first, second, (count - 1) as nat);
        let function = first.functions@[count - 1];
        let before = assemble_spec(first, (count - 1) as nat);
        let display = camel_case_of(function.name@);
        assert(function_step(before.records, first, function, (count - 1) as usize, display)
            == function_step(before.records, second, function, (count - 1) as usize, display));
    }
}

} // verus!
