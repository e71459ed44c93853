use vstd::prelude::*;

verus! {

/// The simulators that the graphical front end offers.
#[derive(Debug, Clone, Copy, PartialEq, Eq, Structural)]
pub enum Simulator {
    Genesis,
    Neuron,
    Brian,
    Nest,
    Xppaut,
    Auto,
    Copasi,
}

pub open spec fn spec_all() -> Seq<Simulator> {
    seq![
        Simulator::Genesis,
        Simulator::Neuron,
        Simulator::Brian,
        Simulator::Nest,
        Simulator::Xppaut,
        Simulator::Auto,
        Simulator::Copasi,
    ]
}

impl Simulator {
    pub open spec fn spec_name(&self) -> Seq<char> {
        match self {
            Simulator::Genesis => "GENESIS"@,
            Simulator::Neuron => "NEURON"@,
            Simulator::Brian => "Brian"@,
            Simulator::Nest => "NEST"@,
            Simulator::Xppaut => "XPPAUT"@,
            Simulator::Auto => "AUTO"@,
            Simulator::Copasi => "COPASI"@,
        }
    }

    pub open spec fn spec_description(&self) -> Seq<char> {
        match self {
            Simulator::Genesis => "General Neural Simulation System (Caltech)"@,
            Simulator::Neuron => "NEURON Simulator (Yale) - Cable equation"@,
            Simulator::Brian => "Brian Spiking Neural Networks (Python-style)"@,
            Simulator::Nest => "NEST Simulator (Large-scale networks)"@,
            Simulator::Xppaut => "XPP/AUTO Bifurcation Analysis"@,
            Simulator::Auto => "AUTO Continuation & Bifurcation"@,
            Simulator::Copasi => "COPASI/SBML Biochemical Networks"@,
        }
    }

    pub open spec fn spec_icon(&self) -> Seq<char> {
        match self {
            Simulator::Genesis => "🧠"@,
            Simulator::Neuron => "⚡"@,
            Simulator::Brian => "🔮"@,
            Simulator::Nest => "🕸️"@,
            Simulator::Xppaut => "📈"@,
            Simulator::Auto => "🔄"@,
            Simulator::Copasi => "🧬"@,
        }
    }

    pub open spec fn spec_era(&self) -> Seq<char> {
        match self {
            Simulator::Genesis => "1988"@,
            Simulator::Neuron => "1994"@,
            Simulator::Brian => "2008"@,
            Simulator::Nest => "2004"@,
            Simulator::Xppaut => "1990"@,
            Simulator::Auto => "1980"@,
            Simulator::Copasi => "2006"@,
        }
    }

    pub open spec fn spec_file_extensions(&self) -> Seq<Seq<char>> {
        match self {
            Simulator::Genesis => seq!["g"@, "genesis"@, "sli"@],
            Simulator::Neuron => seq!["hoc"@, "nmodl"@, "mod"@],
            Simulator::Brian => seq!["py"@, "brian"@],
            Simulator::Nest => seq!["sli"@, "nest"@, "py"@],
            Simulator::Xppaut => seq!["ode"@, "xpp"@],
            Simulator::Auto => seq!["f"@, "auto"@],
            Simulator::Copasi => seq!["cps"@, "sbml"@, "xml"@],
        }
    }

    /// Every simulator, in menu order.
    pub fn all() -> (r: Vec<Simulator>)
        ensures
            r@ == spec_all(),
    {
        let r = vec![
            Simulator::Genesis,
            Simulator::Neuron,
            Simulator::Brian,
            Simulator::Nest,
            Simulator::Xppaut,
            Simulator::Auto,
            Simulator::Copasi,
        ];
        assert(r@ =~= spec_all());
        r
    }

    pub fn name(&self) -> (r: &'static str)
        ensures
            r@ == self.spec_name(),
    {
        match self {
            Simulator::Genesis => "GENESIS",
            Simulator::Neuron => "NEURON",
            Simulator::Brian => "Brian",
            Simulator::Nest => "NEST",
            Simulator::Xppaut => "XPPAUT",
            Simulator::Auto => "AUTO",
            Simulator::Copasi => "COPASI",
        }
    }

    pub fn description(&self) -> (r: &'static str)
        ensures
            r@ == self.spec_description(),
    {
        match self {
            Simulator::Genesis => "General Neural Simulation System (Caltech)",
            Simulator::Neuron => "NEURON Simulator (Yale) - Cable equation",
            Simulator::Brian => "Brian Spiking Neural Networks (Python-style)",
            Simulator::Nest => "NEST Simulator (Large-scale networks)",
            Simulator::Xppaut => "XPP/AUTO Bifurcation Analysis",
            Simulator::Auto => "AUTO Continuation & Bifurcation",
            Simulator::Copasi => "COPASI/SBML Biochemical Networks",
        }
    }

    pub fn icon(&self) -> (r: &'static str)
        ensures
            r@ == self.spec_icon(),
    {
        match self {
            Simulator::Genesis => "🧠",
            Simulator::Neuron => "⚡",
            Simulator::Brian => "🔮",
            Simulator::Nest => "🕸️",
            Simulator::Xppaut => "📈",
            Simulator::Auto => "🔄",
            Simulator::Copasi => "🧬",
        }
    }

    /// The year the simulator first appeared.
    pub fn era(&self) -> (r: &'static str)
        ensures
            r@ == self.spec_era(),
    {
        match self {
            Simulator::Genesis => "1988",
            Simulator::Neuron => "1994",
            Simulator::Brian => "2008",
            Simulator::Nest => "2004",
            Simulator::Xppaut => "1990",
            Simulator::Auto => "1980",
            Simulator::Copasi => "2006",
        }
    }

    /// The file extensions of the simulator's model files, without the dot.
    pub fn file_extensions(&self) -> (r: Vec<&'static str>)
        ensures
            r@.len() == self.spec_file_extensions().len(),
            forall|i: int| 0 <= i < r@.len() ==> #[trigger] r@[i]@ == self.spec_file_extensions()[i],
    {
        match self {
            Simulator::Genesis => vec!["g", "genesis", "sli"],
            Simulator::Neuron => vec!["hoc", "nmodl", "mod"],
            Simulator::Brian => vec!["py", "brian"],
            Simulator::Nest => vec!["sli", "nest", "py"],
            Simulator::Xppaut => vec!["ode", "xpp"],
            Simulator::Auto => vec!["f", "auto"],
            Simulator::Copasi => vec!["cps", "sbml", "xml"],
        }
    }
}

impl Default for Simulator {
    fn default() -> (r: Self)
        ensures
            r == Simulator::Genesis,
    {
        Simulator::Genesis
    }
}

} // verus!
