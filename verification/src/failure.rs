//! Why a procedure cannot go on.
use vstd::prelude::*;

verus! {

/// Why a procedure cannot go on.
#[derive(Clone, Copy, Debug, PartialEq, Eq, Structural)]
pub enum Failure {
    /// A frame was presented before the original function was known.
    TrampolineUninitialized,
    /// The swap chain did not give its device.
    GetDevice,
    /// The device did not give its immediate context.
    NoContext,
    /// The swap chain did not describe itself.
    GetDesc,
    /// The swap chain did not describe itself when the window was to be given back.
    CleanupGetDesc,
    /// No render loop is left for the renderer.
    NoRenderLoop,
    /// No device and swap chain could be created.
    CreateDevice,
    /// A device was created without a swap chain.
    NoSwapChain,
    /// The function that presents frames could not be detoured.
    CreateDetour,
}

impl Failure {
    /// The failure in words.
    pub open spec fn words(self) -> Seq<char> {
        match self {
            Failure::TrampolineUninitialized =>
                "IDXGISwapChain::Present trampoline uninitialized"@,
            Failure::GetDevice => "GetDevice"@,
            Failure::NoContext => "called `Option::unwrap()` on a `None` value"@,
            Failure::GetDesc => "GetDesc"@,
            Failure::CleanupGetDesc => "called `Result::unwrap()` on an `Err` value"@,
            Failure::NoRenderLoop => "called `Option::unwrap()` on a `None` value"@,
            Failure::CreateDevice => "D3D11CreateDeviceAndSwapChain failed"@,
            Failure::NoSwapChain => "called `Option::unwrap()` on a `None` value"@,
            Failure::CreateDetour => "Create detour"@,
        }
    }

    /// A call gave an error, as against no value.
    pub open spec fn is_error(self) -> bool {
        match self {
            Failure::GetDevice => true,
            Failure::GetDesc => true,
            Failure::CleanupGetDesc => true,
            Failure::CreateDevice => true,
            Failure::CreateDetour => true,
            _ => false,
        }
    }

    /// The failure in words.
    pub fn message(&self) -> (text: &'static str)
        ensures
            text@ == self.words(),
    {
        match self {
            Failure::TrampolineUninitialized => "IDXGISwapChain::Present trampoline uninitialized",
            Failure::GetDevice => "GetDevice",
            Failure::NoContext => "called `Option::unwrap()` on a `None` value",
            Failure::GetDesc => "GetDesc",
            Failure::CleanupGetDesc => "called `Result::unwrap()` on an `Err` value",
            Failure::NoRenderLoop => "called `Option::unwrap()` on a `None` value",
            Failure::CreateDevice => "D3D11CreateDeviceAndSwapChain failed",
            Failure::NoSwapChain => "called `Option::unwrap()` on a `None` value",
            Failure::CreateDetour => "Create detour",
        }
    }

    /// The failure in words and, where a call gave an error, that error after a colon.
    pub fn report(&self, error: &str) -> (text: String)
        ensures
            text@ == if self.is_error() {
                self.words() + ": "@ + error@
            } else {
                self.words()
            },
    {
        let words = self.message();
        match self {
            Failure::GetDevice
            | Failure::GetDesc
            | Failure::CleanupGetDesc
            | Failure::CreateDevice
            | Failure::CreateDetour => {
                let mut text = words.to_owned();
                text.append(": ");
                text.append(error);
                text
            },
            _ => words.to_owned(),
        }
    }
}

/// The words of each failure, and which of them stand before the error of a call.
pub proof fn law_failures_say_what_was_expected(failure: Failure)
    ensures
        Failure::TrampolineUninitialized.words()
            == "IDXGISwapChain::Present trampoline uninitialized"@,
        Failure::GetDevice.words() == "GetDevice"@,
        Failure::GetDesc.words() == "GetDesc"@,
        Failure::CreateDevice.words() == "D3D11CreateDeviceAndSwapChain failed"@,
        Failure::CreateDetour.words() == "Create detour"@,
        Failure::CleanupGetDesc.words() == "called `Result::unwrap()` on an `Err` value"@,
        failure is NoContext || failure is NoRenderLoop || failure is NoSwapChain
            ==> failure.words() == "called `Option::unwrap()` on a `None` value"@,
        failure.is_error() <==> !(failure is TrampolineUninitialized || failure is NoContext
            || failure is NoRenderLoop || failure is NoSwapChain),
{
}

} // verus!
