use vstd::prelude::*;

verus! {

/// One category of diagnostic the analyzer can emit.
///
/// Every category has a fixed severity tier (`severity`): 0 marks a hard
/// error, 1 through 5 mark warnings of growing severity.  Every category
/// also has a stable numeric code (`code`) used to reference the
/// documentation index.
#[derive(Copy, Clone, Debug, PartialEq, Eq, Hash, Structural)]
pub enum AnalyzerKind {
    /// Non-type identifier names should be snake_case.
    NonSnakeCase,
    /// Type identifier names, such as classes or traits, should be PascalCase.
    NonPascalCase,
    /// Identifier names should contain only ASCII characters.
    NonAscii,
    /// A variable or parameter was declared but never used.
    UnusedVariables,
    /// A variable or parameter was declared as mutable, but is never mutated.
    UnnecessaryMutVariables,
    /// Global mutable variables are highly discouraged.
    GlobalMutableVariables,
    /// Value of an if statement has unbalanced types.
    UnbalancedIfStatements,
    /// An identifier (e.g. a variable) could not be found in the current scope.
    UnresolvedIdentifiers,
    /// A variable declared as `const` was redeclared later on.
    RedeclaredConstVariables,
    /// An immutable variable was reassigned to.
    ReassignedImmutableVariables,
    /// The operator is not supported for the given type.
    UnsupportedOperators,
    /// Received a type that was incompatible with what was expected.
    IncompatibleTypes,
    /// The type could not be inferred.
    UninferableTypes,
}

impl AnalyzerKind {
    /// The severity tier of the category: 0 for errors, 1 to 5 for
    /// warnings, where a higher number means a more severe warning.
    pub open spec fn spec_severity(self) -> u8 {
        match self {
            AnalyzerKind::NonSnakeCase | AnalyzerKind::NonPascalCase | AnalyzerKind::NonAscii => 1,
            AnalyzerKind::UnusedVariables | AnalyzerKind::UnnecessaryMutVariables => 2,
            AnalyzerKind::UnbalancedIfStatements => 3,
            AnalyzerKind::GlobalMutableVariables => 4,
            AnalyzerKind::UnresolvedIdentifiers
            | AnalyzerKind::RedeclaredConstVariables
            | AnalyzerKind::ReassignedImmutableVariables
            | AnalyzerKind::UnsupportedOperators
            | AnalyzerKind::IncompatibleTypes
            | AnalyzerKind::UninferableTypes => 0,
        }
    }

    /// The stable numeric code of the category in the documentation
    /// index; error and warning codes are numbered independently.
    pub open spec fn spec_code(self) -> u8 {
        match self {
            AnalyzerKind::NonSnakeCase => 0,
            AnalyzerKind::NonPascalCase | AnalyzerKind::UnresolvedIdentifiers => 1,
            AnalyzerKind::NonAscii | AnalyzerKind::RedeclaredConstVariables => 2,
            AnalyzerKind::UnusedVariables | AnalyzerKind::ReassignedImmutableVariables => 3,
            AnalyzerKind::UnnecessaryMutVariables | AnalyzerKind::UnsupportedOperators => 4,
            AnalyzerKind::GlobalMutableVariables | AnalyzerKind::IncompatibleTypes => 5,
            AnalyzerKind::UnbalancedIfStatements | AnalyzerKind::UninferableTypes => 6,
        }
    }

    /// Returns a number 0 to 5 (inclusive) representing the severity of
    /// this category: 0 for a hard error, otherwise the warning tier,
    /// where a higher number means a more severe warning.
    pub fn severity(&self) -> (s: u8)
        ensures
            s == self.spec_severity(),
            s <= 5,
    {
        match self {
            AnalyzerKind::NonSnakeCase | AnalyzerKind::NonPascalCase | AnalyzerKind::NonAscii => 1,
            AnalyzerKind::UnusedVariables | AnalyzerKind::UnnecessaryMutVariables => 2,
            AnalyzerKind::UnbalancedIfStatements => 3,
            AnalyzerKind::GlobalMutableVariables => 4,
            AnalyzerKind::UnresolvedIdentifiers
            | AnalyzerKind::RedeclaredConstVariables
            | AnalyzerKind::ReassignedImmutableVariables
            | AnalyzerKind::UnsupportedOperators
            | AnalyzerKind::IncompatibleTypes
            | AnalyzerKind::UninferableTypes => 0,
        }
    }

    /// The stable code referencing the documentation index entry of the
    /// category.
    pub fn code(&self) -> (c: u8)
        ensures
            c == self.spec_code(),
    {
        match self {
            AnalyzerKind::NonSnakeCase => 0,
            AnalyzerKind::NonPascalCase | AnalyzerKind::UnresolvedIdentifiers => 1,
            AnalyzerKind::NonAscii | AnalyzerKind::RedeclaredConstVariables => 2,
            AnalyzerKind::UnusedVariables | AnalyzerKind::ReassignedImmutableVariables => 3,
            AnalyzerKind::UnnecessaryMutVariables | AnalyzerKind::UnsupportedOperators => 4,
            AnalyzerKind::GlobalMutableVariables | AnalyzerKind::IncompatibleTypes => 5,
            AnalyzerKind::UnbalancedIfStatements | AnalyzerKind::UninferableTypes => 6,
        }
    }

    /// A category with a nonzero severity tier is a warning.
    pub fn is_warning(&self) -> (w: bool)
        ensures
            w == (self.spec_severity() != 0),
    {
        self.severity() != 0
    }

    /// A category with severity tier 0 is a hard error.
    pub fn is_error(&self) -> (e: bool)
        ensures
            e == (self.spec_severity() == 0),
    {
        self.severity() == 0
    }

    /// The warning tier of the category, or `None` for a hard error.
    pub fn warn_level(&self) -> (l: Option<u8>)
        ensures
            self.spec_severity() == 0 ==> l is None,
            self.spec_severity() != 0 ==> l == Some(self.spec_severity()),
    {
        let s = self.severity();
        if s == 0 {
            None
        } else {
            Some(s)
        }
    }
}

/// The flag name of a category, as written on a command line.
pub open spec fn spec_kind_name(k: AnalyzerKind) -> Seq<char> {
    match k {
        AnalyzerKind::NonSnakeCase => "non-snake-case"@,
        AnalyzerKind::NonPascalCase => "non-pascal_case"@,
        AnalyzerKind::NonAscii => "non-ascii"@,
        AnalyzerKind::UnusedVariables => "unused-variables"@,
        AnalyzerKind::UnnecessaryMutVariables => "unnecessary-mut-variables"@,
        AnalyzerKind::GlobalMutableVariables => "global-mutable-variables"@,
        AnalyzerKind::UnbalancedIfStatements => "unbalanced-if-statements"@,
        AnalyzerKind::UnresolvedIdentifiers => "unresolved-identifiers"@,
        AnalyzerKind::RedeclaredConstVariables => "redeclared-const-variables"@,
        AnalyzerKind::ReassignedImmutableVariables => "reassigned-immutable-variables"@,
        AnalyzerKind::UnsupportedOperators => "unsupported-operators"@,
        AnalyzerKind::IncompatibleTypes => "incompatible-types"@,
        AnalyzerKind::UninferableTypes => "uninferable-types"@,
    }
}

impl AnalyzerKind {
    /// The flag name of the category.
    pub fn name(&self) -> (r: &'static str)
        ensures
            r@ == spec_kind_name(*self),
    {
        match self {
            AnalyzerKind::NonSnakeCase => "non-snake-case",
            AnalyzerKind::NonPascalCase => "non-pascal_case",
            AnalyzerKind::NonAscii => "non-ascii",
            AnalyzerKind::UnusedVariables => "unused-variables",
            AnalyzerKind::UnnecessaryMutVariables => "unnecessary-mut-variables",
            AnalyzerKind::GlobalMutableVariables => "global-mutable-variables",
            AnalyzerKind::UnbalancedIfStatements => "unbalanced-if-statements",
            AnalyzerKind::UnresolvedIdentifiers => "unresolved-identifiers",
            AnalyzerKind::RedeclaredConstVariables => "redeclared-const-variables",
            AnalyzerKind::ReassignedImmutableVariables => "reassigned-immutable-variables",
            AnalyzerKind::UnsupportedOperators => "unsupported-operators",
            AnalyzerKind::IncompatibleTypes => "incompatible-types",
            AnalyzerKind::UninferableTypes => "uninferable-types",
        }
    }

    /// The category a flag name denotes, if any: the inverse of
    /// `name`.
    pub fn from_name(s: &str) -> (r: Option<AnalyzerKind>)
        ensures
            match r {
                Some(k) => s@ == spec_kind_name(k),
                None => forall|k: AnalyzerKind| s@ != spec_kind_name(k),
            },
    {
        let owned: String = s.to_owned();
        if owned == "non-snake-case".to_owned() {
            Some(AnalyzerKind::NonSnakeCase)
        } else if owned == "non-pascal_case".to_owned() {
            Some(AnalyzerKind::NonPascalCase)
        } else if owned == "non-ascii".to_owned() {
            Some(AnalyzerKind::NonAscii)
        } else if owned == "unused-variables".to_owned() {
            Some(AnalyzerKind::UnusedVariables)
        } else if owned == "unnecessary-mut-variables".to_owned() {
            Some(AnalyzerKind::UnnecessaryMutVariables)
        } else if owned == "global-mutable-variables".to_owned() {
            Some(AnalyzerKind::GlobalMutableVariables)
        } else if owned == "unbalanced-if-statements".to_owned() {
            Some(AnalyzerKind::UnbalancedIfStatements)
        } else if owned == "unresolved-identifiers".to_owned() {
            Some(AnalyzerKind::UnresolvedIdentifiers)
        } else if owned == "redeclared-const-variables".to_owned() {
            Some(AnalyzerKind::RedeclaredConstVariables)
        } else if owned == "reassigned-immutable-variables".to_owned() {
            Some(AnalyzerKind::ReassignedImmutableVariables)
        } else if owned == "unsupported-operators".to_owned() {
            Some(AnalyzerKind::UnsupportedOperators)
        } else if owned == "incompatible-types".to_owned() {
            Some(AnalyzerKind::IncompatibleTypes)
        } else if owned == "uninferable-types".to_owned() {
            Some(AnalyzerKind::UninferableTypes)
        } else {
            None
        }
    }
}

/// The set of diagnostic categories that are enabled for one analysis
/// run: one flag per `AnalyzerKind`.
#[derive(Copy, Clone, Debug, PartialEq, Eq, Structural)]
pub struct AnalyzerSet {
    pub non_snake_case: bool,
    pub non_pascal_case: bool,
    pub non_ascii: bool,
    pub unused_variables: bool,
    pub unnecessary_mut_variables: bool,
    pub global_mutable_variables: bool,
    pub unbalanced_if_statements: bool,
    pub unresolved_identifiers: bool,
    pub redeclared_const_variables: bool,
    pub reassigned_immutable_variables: bool,
    pub unsupported_operators: bool,
    pub incompatible_types: bool,
    pub uninferable_types: bool,
}

impl AnalyzerSet {
    /// Whether the given category is a member of the set.
    pub open spec fn spec_contains(self, member: AnalyzerKind) -> bool {
        match member {
            AnalyzerKind::NonSnakeCase => self.non_snake_case,
            AnalyzerKind::NonPascalCase => self.non_pascal_case,
            AnalyzerKind::NonAscii => self.non_ascii,
            AnalyzerKind::UnusedVariables => self.unused_variables,
            AnalyzerKind::UnnecessaryMutVariables => self.unnecessary_mut_variables,
            AnalyzerKind::GlobalMutableVariables => self.global_mutable_variables,
            AnalyzerKind::UnbalancedIfStatements => self.unbalanced_if_statements,
            AnalyzerKind::UnresolvedIdentifiers => self.unresolved_identifiers,
            AnalyzerKind::RedeclaredConstVariables => self.redeclared_const_variables,
            AnalyzerKind::ReassignedImmutableVariables => self.reassigned_immutable_variables,
            AnalyzerKind::UnsupportedOperators => self.unsupported_operators,
            AnalyzerKind::IncompatibleTypes => self.incompatible_types,
            AnalyzerKind::UninferableTypes => self.uninferable_types,
        }
    }

    /// Membership test for one category.
    pub fn contains(&self, member: &AnalyzerKind) -> (r: bool)
        ensures
            r == self.spec_contains(*member),
    {
        match member {
            AnalyzerKind::NonSnakeCase => self.non_snake_case,
            AnalyzerKind::NonPascalCase => self.non_pascal_case,
            AnalyzerKind::NonAscii => self.non_ascii,
            AnalyzerKind::UnusedVariables => self.unused_variables,
            AnalyzerKind::UnnecessaryMutVariables => self.unnecessary_mut_variables,
            AnalyzerKind::GlobalMutableVariables => self.global_mutable_variables,
            AnalyzerKind::UnbalancedIfStatements => self.unbalanced_if_statements,
            AnalyzerKind::UnresolvedIdentifiers => self.unresolved_identifiers,
            AnalyzerKind::RedeclaredConstVariables => self.redeclared_const_variables,
            AnalyzerKind::ReassignedImmutableVariables => self.reassigned_immutable_variables,
            AnalyzerKind::UnsupportedOperators => self.unsupported_operators,
            AnalyzerKind::IncompatibleTypes => self.incompatible_types,
            AnalyzerKind::UninferableTypes => self.uninferable_types,
        }
    }

    /// The empty set: no category is enabled.
    pub fn none() -> (s: AnalyzerSet)
        ensures
            forall|k: AnalyzerKind| !s.spec_contains(k),
    {
        AnalyzerSet {
            non_snake_case: false,
            non_pascal_case: false,
            non_ascii: false,
            unused_variables: false,
            unnecessary_mut_variables: false,
            global_mutable_variables: false,
            unbalanced_if_statements: false,
            unresolved_identifiers: false,
            redeclared_const_variables: false,
            reassigned_immutable_variables: false,
            unsupported_operators: false,
            incompatible_types: false,
            uninferable_types: false,
        }
    }

    /// The full set: every category is enabled.
    pub fn all() -> (s: AnalyzerSet)
        ensures
            forall|k: AnalyzerKind| s.spec_contains(k),
    {
        AnalyzerSet {
            non_snake_case: true,
            non_pascal_case: true,
            non_ascii: true,
            unused_variables: true,
            unnecessary_mut_variables: true,
            global_mutable_variables: true,
            unbalanced_if_statements: true,
            unresolved_identifiers: true,
            redeclared_const_variables: true,
            reassigned_immutable_variables: true,
            unsupported_operators: true,
            incompatible_types: true,
            uninferable_types: true,
        }
    }

    /// Starts from the full set and removes the given categories.
    pub fn from_disabled(disabled: &AnalyzerSet) -> (s: AnalyzerSet)
        ensures
            forall|k: AnalyzerKind| s.spec_contains(k) <==> !disabled.spec_contains(k),
    {
        AnalyzerSet {
            non_snake_case: !disabled.non_snake_case,
            non_pascal_case: !disabled.non_pascal_case,
            non_ascii: !disabled.non_ascii,
            unused_variables: !disabled.unused_variables,
            unnecessary_mut_variables: !disabled.unnecessary_mut_variables,
            global_mutable_variables: !disabled.global_mutable_variables,
            unbalanced_if_statements: !disabled.unbalanced_if_statements,
            unresolved_identifiers: !disabled.unresolved_identifiers,
            redeclared_const_variables: !disabled.redeclared_const_variables,
            reassigned_immutable_variables: !disabled.reassigned_immutable_variables,
            unsupported_operators: !disabled.unsupported_operators,
            incompatible_types: !disabled.incompatible_types,
            uninferable_types: !disabled.uninferable_types,
        }
    }

    /// Starts from the full set, unions in `allowed`, then removes
    /// `disabled`; disabling takes precedence over allowing when both
    /// name the same category.  Since the starting set is already full,
    /// the result enables exactly the categories not disabled.
    #[allow(unused_variables)]
    pub fn from_allowed_disabled(allowed: &AnalyzerSet, disabled: &AnalyzerSet) -> (s: AnalyzerSet)
        ensures
            forall|k: AnalyzerKind| s.spec_contains(k) <==> !disabled.spec_contains(k),
    {
        Self::from_disabled(disabled)
    }
}

impl Default for AnalyzerSet {
    /// The default set enables every category.
    fn default() -> (s: AnalyzerSet)
        ensures
            forall|k: AnalyzerKind| s.spec_contains(k),
    {
        Self::all()
    }
}

} // verus!
