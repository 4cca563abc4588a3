pub mod aggregate;
pub mod assembly;
pub mod bimap;
pub mod builders;
pub mod call_info;
pub mod casts;
pub mod cil_node;
pub mod cil_root;
pub mod cilnode;
pub mod class_ref;
pub mod constant;
pub mod cst;
pub mod expr;
pub mod field_desc;
pub mod fn_sig;
pub mod hashing;
pub mod interned;
pub mod istring;
pub mod lower;
pub mod lowerable;
pub mod method_ref;
pub mod operand;
pub mod rewrite;
pub mod rvalue;
pub mod tpe;
pub mod utilis;
pub mod validation;
