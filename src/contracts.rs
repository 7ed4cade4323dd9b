use vstd::prelude::*;

verus! {

/// A parameter of a contract function: its name and its ABI type name.
#[allow(non_snake_case)]
#[derive(Clone, Debug)]
pub struct ContractABIParameter {
    pub name: String,
    pub parameterType: String,
}

/// A contract function with its inputs and outputs.
#[allow(non_snake_case)]
#[derive(Clone, Debug)]
pub struct ContractABIFunction {
    pub name: String,
    pub signed: bool,
    pub inputs: Vec<ContractABIParameter>,
    pub outputs: Vec<ContractABIParameter>,
}

/// A contract's interface.
#[allow(non_snake_case)]
#[derive(Clone, Debug)]
pub struct ContractABI {
    pub abiVersion: i32,
    pub functions: Vec<ContractABIFunction>,
}

/// A contract's interface with its code image, in base64.
#[allow(non_snake_case)]
#[derive(Clone, Debug)]
pub struct ContractPackage {
    pub abi: ContractABI,
    pub imageBase64: String,
}

} // verus!
